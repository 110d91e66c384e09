# rdma_session

Connection and listener lifecycles of an explicitly driven RDMA engine, written and
proved in Verus.

The library decides. It holds the tables of a session (connections, listeners, routes of
the connection manager, requests, deadlines) and turns events, commands and deadlines
into changes of these tables and into steps. A step names one thing that only the
outside can do: create an identifier, build or destroy a queue pair, accept or reject a
peer, end the observers of operations. Whoever drives the library performs the step and
hands the answer to the function that goes on. What has to be published afterwards
(events, wakes) is collected in `ReactorActions`.

## Layout

- `src/`: the verified library.
  - `token`, `slots`, `text`, `error`, `config`, `terminal`, `actions`: tokens, slot
    tables, messages, errors, limits, outcomes, publications.
  - `admission`: permits for connection bundles, and what their holders count as.
  - `connection`, `routes`, `registry`: one connection, its route, and the registry that
    owns all of them with its exact queue-pair index.
  - `listener`, `requests`: listeners with their first-come pairing, and the requests
    that wait for connects, listens and accepts.
  - `cm`, `event`, `tables`: the state of the connection manager and the exact dispatch
    of its events.
  - `outbound`, `listen`, `accept`, `inbound`, `install`: setting connections up.
  - `drain`, `retirement`, `shutdown`: taking them down.
  - `deadlines`, `progress`, `service`, `session`: turns of a driver, and handles.
  - `structure`: rules on the structure of a session's own source files.
- `tests/`: tests of the library from outside.
- `app/`: a driver and asynchronous handles over the library, for any provider that
  implements its traits.

## Laws

Each module ends with the laws that span its functions, as public proof functions. Some
of them:

- a token is never issued twice, and a released one never resolves again (`slots`);
- an event reaches only the route whose identifier and context key it carries (`event`);
- the backlog of a listener is the number of its accept permits, and bounds its pending
  children (`listener`);
- the oldest waiter is paired with the oldest child, and nothing overtakes a selected
  pair (`listener`);
- a delivered connection is not withdrawn (`requests`, `listener`);
- one queue-pair number has one owner, and no evidence outlives its entry (`registry`);
- the counts of bundles are exact at every moment, without a look at any slot
  (`registry`);
- a queue pair goes before its identifier, and only a destroyed one gives evidence of it
  (`connection`, `retirement`);
- a close waiter sees no ordinary outcome before retirement (`terminal`);
- one waiter is one unit of shutdown work; a turn of it fits its budget of units and of
  publications, and destroys nothing (`shutdown`).

## Trusted

The library rests on four calls into `tokio::sync::Semaphore`, wrapped in
`src/admission.rs`. What is claimed of them: a semaphore has the number of permits that
it was made with, and a permit belongs to the semaphore that it was taken from. Whether
a permit is free is not claimed: other holders share the semaphores.
