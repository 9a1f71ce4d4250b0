# lucard

The verified core of the lucard command-line banner and infrastructure wiring.

- `src/text.rs`: character-level text helpers, among them `truncate`, which shortens a text to
  a number of characters with three trailing dots.
- `src/banner.rs`: the banner layout. `banner_lines` turns the session, model and provider, the
  logo and the terminal width into lines of styled pieces of text, stacked vertically below 80
  columns and side by side otherwise; each function's contract gives its exact output.
- `src/layout_laws.rs`: proofs about the layout: how wide every line of each form is, that the
  wide form is a closed rectangle within the terminal.
- `src/infra.rs`: the infrastructure services and the environment service.
- `app/lib.rs`: asks the terminal for its width, colours the pieces and prints them.
