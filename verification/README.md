# PlumBrowser

The shell of a small browser: tabs, an address bar, developer tools, and a toolbar that is
itself a web page. It runs on macOS, Windows and Linux.

The library under `src/` decides what the shell does. It is written in Verus, and every
function in it is proved to meet its contract. The program under `app/` owns the window,
the web views and the network. It hands events to the library and performs the effects
that come back.

- `text`, `encoding`, `json`: text, percent encoding, HTML, Base64 and JSON.
- `address`: what the user types, what a tab keeps, what the address bar shows.
- `message`: messages to the shell, events of the web views, addresses of the shell.
- `pages`, `toolbar`, `tab`, `platform`: the pages and scripts of the shell, and what
  differs between operating systems.
- `devtools`: the inspector page for a page.
- `effect`, `browser`: the state of the browser, its steps, and what they ask of the
  window and the web views.
- `laws`: what holds in every state, and of the web views after every step.

What is taken on trust are a few functions of the standard library and of `serde_json`.
Each has a comment that says what is claimed of it.
