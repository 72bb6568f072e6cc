# apalis_redis

The logic of a task queue kept in Redis, verified with Verus.

- `src/` is the verified library: the queue's configuration and the names of
  its keys (`config`), spans of time (`duration`), the invocations of the
  queue's server-side scripts (`script`, `queries`), the decoding of the tasks
  that those scripts hand back (`decode`, `meta`, `text`, `status`,
  `task_id`), the decisions of the persistence layer (`persist`) and the
  reading of event-notification channels (`factory`).
- `app/` connects the library to Redis and to `apalis_core`: connections,
  script execution, the `Backend` and `Persistence` implementations, and the
  serde form of the configuration. The Lua sources of the scripts are read at
  run time from the directory named by `APALIS_REDIS_LUA_DIR` (`lua` by
  default). The batch-push script takes, as its first argument and before
  the arguments of the tasks, the time-to-live of idempotency keys in whole
  seconds, rounded up and at least 1, or 0 when keys never expire.
- `tests/` exercises the library on concrete values.
