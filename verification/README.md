# k7s

A terminal viewer of Kubernetes resources: a table pane for each of pods,
services, deployments, replica sets, daemon sets and jobs, of which the
pod table is filled from the cluster (only pods are turned into rows), a
namespace filter chosen with the digit keys, and a scrollable "describe"
view of the selected object. The describe views of persistent volumes and
claims are in the library too, though no pane lists those objects.

The logic of the viewer is a library verified with Verus:

- `src/app.rs`: the panes, their table configurations, the viewer's state and
  the scrolling of the detail view, with the laws of scrolling;
- `src/controls.rs`: what every key does to the state, and what drawing a
  table does to its selection, with the laws of navigation (Tab and
  Shift+Tab, selections, namespace choice);
- `src/ticks.rs`: how long the loop waits for a key and when it refreshes;
- `src/resources.rs`: the rows of the pod table (readiness, phase, restarts,
  age);
- `src/describe.rs`, `src/containers.rs`, `src/deployments.rs`,
  `src/pods.rs`, `src/services.rs`, `src/controllers.rs`, `src/storage.rs`:
  the text of the describe views, each stated as a spec function over the
  plain object model of `src/model.rs` (maps as `Pairs`, whose keys are
  kept in increasing order, and points in time as `Time`); `src/views.rs` proves that every
  view of a fetched object runs from its identity section to the key help;
- `src/text.rs`: numbers, padded columns, section headings and the other
  pieces of text;
- `src/clock.rs`: the clock and RFC 2822 dates, from `chrono`.

`app/` is the program around it: it talks to the cluster with `kube`,
converts the `k8s-openapi` objects into the library's model, reads keys with
`crossterm` and draws with `ratatui`.
