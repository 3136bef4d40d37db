# Ladybug

A UCI chess engine whose rules, move generation, search and command handling are
verified with Verus.

- `src/board`: colors, pieces, squares, bitboards, the position and its model,
  FEN reading and writing (`fen_spec` states the format, `fen_laws` proves that
  reading what was written gives the position back).
- `src/lookup`: attack tables for knights, kings and pawns.
- `src/move_gen`: the rules of chess as spec functions (`rules`), their
  executable checks, making a move, generating all legal moves, and move text.
- `src/evaluation`, `src/search`: material evaluation, negamax and iterative
  deepening, each with its exact score as a spec function.
- `src/uci.rs`, `src/ladybug.rs`: parsing UCI input and Ladybug's answer to each
  line, as a function from board and input to new board and output.
- `app/main.rs`: the program, which wires standard input and output to Ladybug
  over channels.
