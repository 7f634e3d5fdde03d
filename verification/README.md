# mcpg_operator

The decisions of a Kubernetes operator for the Model Context Protocol gateway,
written in Rust and proved with Verus.

The library in `src/` talks to nothing. It is handed what the cluster says as
plain values and returns what is to be done: which object to apply, what to
write into a status, whether a write is admitted, how long to wait. What each
function returns is stated in its contract; what holds of several of them
together is stated by the public proof functions whose names begin with `law_`.

- `admission/`: the verdicts of the admission webhook.
- `controllers/`: one directory for each kind of resource. A `flow` module holds
  the steps of a reconcile: a state, an event that answers the last action, and
  the action that follows.
- `reconcile/`: what the controllers share, such as finalizers and the patching
  of a status.
- `oci_pull`: image references, credentials and the steps of a pull.
- `leader`, `backoff`, `fleet_agent`, `readiness`: leader election, delays
  between retries, the cell agent, and readiness.
- `json`, `strmap`, `ordered`, `text`, `hashing`, `clock`, `duration`: the data
  that the rest is made of.

`app/` is the ordinary Rust around it: the connection to the cluster, the
servers, the command line. It performs the actions and hands back the events.
