# reacher_backend

The decisions of an email verification backend, verified with Verus: what a request asks to be
verified, how an address is probed over SMTP and what the replies say about it, how a task is read from
its message and brought to its end, what is stored and exported of it, how its webhook is told, and what
the health endpoint answers.

- `src/` is the verified library. Its modules take and return plain values; I/O is left to the
  caller, who carries out the actions that the state machines in `worker`, `webhook` and
  `smtp_probe` ask for.
- `app/` is ordinary Rust around it: the HTTP endpoints, the queue worker, PostgreSQL, the webhook
  client, the loop that probes an address over given SMTP connections, and the serialized forms of
  requests and tasks.
- `tests/` runs the library on concrete values.

What the library believes without proof about `serde_json`, `http` and `uuid` stands in `json`,
`headers` and `task_id`, in the contracts of functions that do nothing but call them.
