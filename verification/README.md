# fill_box_control

The control panel of a nitrous fill box: it shows the pad station's pressure
readings and valve states and sends it valve, logging and firing commands.

- `src/` is the verified library (Verus):
  - `status`: stream status and valve state, their labels and colours, and
    the mapping of command values to valve states;
  - `endpoints`: the URLs of every command;
  - `reply`: what came back from a request, and whether it succeeded
    (through `reqwest::StatusCode`);
  - `badge`: the text, colour and style of the badges;
  - `panel`: the panel as a state machine, from state and event to next
    state and request;
  - `laws`: properties that span several events, proved over the panel's
    model.
- `app/` renders the page with dioxus, opens the event stream and sends the
  requests, and hands each event to `Panel::step`.
- `tests/` runs the library on concrete values.
