# Shaoooh

Shiny Hunting Automaton On Original Hardware: a bot that plays Pokémon games
on real consoles, presses the buttons, watches the screen and tells when a
shiny appears.

The library under `src/` is written in Verus, which proves the contracts of
its functions.

- `src/app/` — the states of a hunt and the transitions between them
  (`states`), the handling of transition requests with the saved count and
  the phases of a hunt (`control`), and the errors (`error`).
- `src/hunt/` — the hunts: the frame checks (`checks`), the hunt state machine
  and its presses (`state_machine`), the builder that assembles it from
  fragments (`state_machine_build`), the encounter and detection fragments of
  each game (`encounter_type`, `detection`), and the table-driven hunts of
  the older games (`classic`).
- `src/fsm/` — the generic state machine: states, checks, delays and its graph.
- `src/vision/` — the frame checks a hunt can ask for, the two-frame store, and
  the NTR packet headers and the reassembly of the 3DS screen stream.
- `src/control/` — buttons and press lengths, the 3DS input-redirection packet
  and the text commands of the DS button presser.
- `src/context/` — species names, game versions and encounter locations read
  from the PokeAPI tables.
- `src/displays/` — the light ring, the counter screen and the phone
  notifications.
- `src/text.rs`, `src/sys.rs` — decimal text, the clock and random draws.

`app/` at the top level is the program: arguments, logging, the hunt files
under `hunts/`, the command channel and the console link. `tests/` holds the
tests of the library.
