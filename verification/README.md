# sublate

A workspace for taking programmatic ideas apart and watching them move: user
code runs in a Python interpreter inside a web worker, its output is checked
for a property (sortedness), and a script-built Lottie animation shows its
steps.

`src/` is the verified library (Verus):

- `protocol` — the messages between editor and worker, and the reliable link
  that numbers replies, acknowledges requests with watermarks and sends in
  queue order;
- `hegel` — the steps of the property check and the sortedness verdict;
- `builder` — the builder of animation state machines that scripts drive;
- `state_machine` — the state machine, its states and the Lottie composition
  model (floating-point values are carried as `f64` bit patterns);
- `editor` — the editor view's decisions (which replies it takes up, its log
  lines);
- `text` — decimal text and string joining;
- `algorithm`, `python_vm` — small interfaces of the notebook.

`app/` holds what runs around it: the Python bindings, the worker's event
loop, the Dioxus views, the velato render sink, and the serde copies of the
message types.
