# ucp

Asynchronous bindings for UCP, the protocol layer of UCX, around a verified core.

`src/` holds everything that the bindings decide and compute, verified with
Verus. It makes no foreign call: each function says what is handed to a call of
UCX, or what follows from its reply.

- `status`: status codes, and status pointers sorted into success, request and
  error.
- `request`: what UCX keeps for an operation under way, and the steps by which a
  task waits for it without missing its completion.
- `wake`: the cell that holds the waiting task, on top of `AtomicWaker`.
- `queue`: arrivals and the tasks that wait for them.
- `config`, `context`, `worker`, `listener`, `endpoint`: the objects of UCX, the
  parameters that they are created with and the order in which they depend on
  one another.
- `sockaddr`: socket addresses, and their form in the operating system, on top of
  `OsSocketAddr`.

The object types are generic over a handle `H` that owns an object of UCX.

`app/` makes the foreign calls, runs the futures and releases the objects.
