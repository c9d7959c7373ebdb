# treadmill

A small multi-threaded async runtime with per-worker FIFO queues and work stealing.

- `src/` is the verified library: runtime settings (`builder`), the work-stealing
  wiring of the worker queues, proved over the queue handles each receiver holds:
  receiver `i` reads worker `i`'s queue and, with stealing on, holds a handle to every
  other worker's queue in ascending order (`layout`, `worker`), the order in which a
  worker looks for work and the random choice of a worker for new tasks (`worker`), the states of a
  blocking task handle (`blocking`), trying resolved addresses in turn (`addr`), the
  name the entry-point attributes give the async body (`naming`), the client
  connector's port rule (`connector`) and the example future's counting
  (`say_n_times`).
- `app/` starts the worker threads and runs the tasks they take, keeps the thread-local current runtime, spawns
  futures, drives mio, and holds the hyper executor, listener, stream and connector and
  the example programs.
- `tests/` exercises the library.
