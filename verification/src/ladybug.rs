use vstd::prelude::*;
use vstd::string::*;
use crate::board::Board;
use crate::board::fen_spec::{all_digits, decimal_value, fen_of, parse_fen};
use crate::board::position::{start_view, Position, PositionView};
use crate::move_gen::ply::Ply;
use crate::move_gen::ply_text::ply_from_text;
use crate::move_gen::rules::make_move_spec;
use crate::text::{chars_of, char_to_digit, is_digit, string_views, views_of, word_is, words};
use crate::uci::{command_of_words, parse_uci, unknown_command, unknown_command_text, UciCommand, UciCommandView};

verus! {

/// The possible states of Ladybug.
enum State {
    Idle,
    GoPerft,
}

/// The main character in this project!
/// Ladybug acts as the UCI client: it holds the current board and answers each line of
/// input with lines of output.
pub struct Ladybug {
    /// The current board position.
    board: Board,
    /// The current state of Ladybug.
    state: State,
}

/// What Ladybug answers to a line of input.
pub struct Reply {
    /// The lines to send to the output, in order.
    pub output: Vec<String>,
    /// Ladybug stops after this line.
    pub quit: bool,
}

/// The FEN text of the start position.
pub open spec fn startpos_text() -> Seq<char> {
    "rnbqkbnr/pppppppp/8/8/8/8/PPPPPPPP/RNBQKBNR w KQkq - 0 1"@
}

/// The FEN text given by `position fen ...`: each argument after the first, up to the
/// word `moves`, preceded by a space.
pub open spec fn fen_words_text(args: Seq<Seq<char>>, i: int) -> Seq<char>
    decreases args.len() - i,
{
    if i >= args.len() || i < 0 || args[i] == "moves"@ {
        Seq::empty()
    } else {
        seq![' '] + args[i] + fen_words_text(args, i + 1)
    }
}

/// The first index from `i` on where `args` holds the word `w`.
pub open spec fn first_index_of(args: Seq<Seq<char>>, w: Seq<char>, i: int) -> Option<int>
    decreases args.len() - i,
{
    if i >= args.len() || i < 0 {
        None
    } else if args[i] == w {
        Some(i)
    } else {
        first_index_of(args, w, i + 1)
    }
}

/// The position after playing the moves `args[i..]` from `v`, if each names a legal move.
pub open spec fn play_from(v: PositionView, args: Seq<Seq<char>>, i: int) -> Option<PositionView>
    decreases args.len() - i,
{
    if i >= args.len() || i < 0 {
        Some(v)
    } else {
        match ply_from_text(args[i], v) {
            Some(m) => play_from(
                make_move_spec(v, m.source as int, m.destination as int, m.promotion_piece),
                args,
                i + 1,
            ),
            None => None,
        }
    }
}

/// The answer to `position <args>` on the board `v`: the new board and the output.
/// `startpos` or `fen <fields>` give the position, `moves <moves>` the moves played
/// from it; an unknown form, an invalid FEN or an invalid move leaves the board as it
/// was and says so.
pub open spec fn position_response(v: PositionView, args: Seq<Seq<char>>) -> (
    PositionView,
    Seq<Seq<char>>,
) {
    if args.len() == 0 || !(args[0] == "startpos"@ || args[0] == "fen"@) {
        (v, seq![unknown_command_text()])
    } else {
        let fen = if args[0] == "startpos"@ {
            startpos_text()
        } else {
            fen_words_text(args, 1)
        };
        match parse_fen(fen) {
            None => (v, seq!["info string invalid fen"@]),
            Some(b) => match first_index_of(args, "moves"@, 0) {
                None => (b, Seq::empty()),
                Some(k) => match play_from(b, args, k + 1) {
                    Some(after) => (after, Seq::empty()),
                    None => (v, seq!["info string invalid moves"@]),
                },
            },
        }
    }
}

/// A depth as `str::parse::<u64>` reads it: an optional `+`, then decimal digits whose
/// value fits a `u64`.
pub open spec fn parse_depth(d: Seq<char>) -> Option<int> {
    let digits = if d.len() > 0 && d[0] == '+' {
        d.skip(1)
    } else {
        d
    };
    if digits.len() > 0 && all_digits(digits) && decimal_value(digits) <= u64::MAX {
        Some(decimal_value(digits))
    } else {
        None
    }
}

/// The lines of the answer to `help`.
pub open spec fn help_text() -> Seq<Seq<char>> {
    seq![
        "Ladybug is a free and UCI compatible chess engine."@,
        "Currently, Ladybug only implements a subset of the UCI protocol:"@,
        "uci                              : Ask Ladybug if she supports UCI"@,
        "isready                          : Synchronize Ladybug with the GUI"@,
        "position fen <fen> moves <moves> : Setup the board position"@,
        "quit                             : Quit Ladybug"@,
        "display                          : Print the fen of the current position"@,
    ]
}

/// Ladybug's answer to a line of input on the board `v`: the new board, the lines of
/// output, and whether Ladybug stops.
pub open spec fn respond(v: PositionView, input: Seq<char>) -> (PositionView, Seq<Seq<char>>, bool) {
    match command_of_words(words(input)) {
        None => (v, seq![unknown_command_text()], false),
        Some(c) => match c {
            UciCommandView::Uci => (
                v,
                seq!["id name Ladybug 0.1.0"@, "id author Felix O."@, "uciok"@],
                false,
            ),
            UciCommandView::IsReady => (v, seq!["readyok"@], false),
            UciCommandView::Position(args) => {
                let (after, out) = position_response(v, args);
                (after, out, false)
            },
            UciCommandView::GoPerft(d) => (
                v,
                if parse_depth(d) is Some {
                    Seq::empty()
                } else {
                    seq![unknown_command_text()]
                },
                false,
            ),
            UciCommandView::Quit => (v, seq!["quit"@], true),
            UciCommandView::Help => (v, help_text(), false),
            UciCommandView::Display => (v, seq![fen_of(v)], false),
        },
    }
}

fn push_line(out: &mut Vec<String>, line: &str)
    ensures
        string_views(final(out)@) == string_views(old(out)@).push(line@),
{
    let ghost before = string_views(out@);
    out.push(String::from_str(line));
    assert(string_views(out@) =~= before.push(line@));
}

fn read_depth(d: &Vec<char>) -> (n: Option<u64>)
    ensures
        match n {
            Some(x) => parse_depth(d@) == Some(x as int),
            None => parse_depth(d@) is None,
        },
{
    let start: usize = if d.len() > 0 && d[0] == '+' { 1 } else { 0 };
    let ghost digits = d@.skip(start as int);
    assert(digits =~= if d@.len() > 0 && d@[0] == '+' { d@.skip(1) } else { d@ });
    if start >= d.len() {
        return None;
    }
    let mut acc: u128 = 0;
    let mut i: usize = start;
    while i < d.len()
        invariant
            start <= i <= d.len(),
            digits == d@.skip(start as int),
            digits == if d@.len() > 0 && d@[0] == '+' { d@.skip(1) } else { d@ },
            all_digits(digits.subrange(0, i - start)),
            acc == if decimal_value(digits.subrange(0, i - start)) > u64::MAX {
                u64::MAX as int + 1
            } else {
                decimal_value(digits.subrange(0, i - start))
            },
        decreases d.len() - i,
    {
        let c = d[i];
        if !('0' <= c && c <= '9') {
            assert(!all_digits(digits)) by {
                assert(digits[i - start] == c);
                assert(!is_digit(digits[i - start]));
            }
            return None;
        }
        let x = char_to_digit(c);
        let ghost prefix = digits.subrange(0, i - start);
        assert(digits.subrange(0, i - start + 1).drop_last() =~= prefix);
        assert(digits[i - start] == c);
        assert(decimal_value(digits.subrange(0, i - start + 1)) == decimal_value(prefix) * 10 + x);
        if acc <= u64::MAX as u128 {
            acc = acc * 10 + x as u128;
            if acc > u64::MAX as u128 {
                acc = u64::MAX as u128 + 1;
            }
        }
        assert(all_digits(digits.subrange(0, i - start + 1))) by {
            assert forall|j: int| 0 <= j < i - start + 1 implies is_digit(
                #[trigger] digits.subrange(0, i - start + 1)[j],
            ) by {
                if j < i - start {
                    assert(digits.subrange(0, i - start + 1)[j] == prefix[j]);
                }
            }
        }
        i = i + 1;
    }
    assert(digits.subrange(0, digits.len() as int) =~= digits);
    if acc > u64::MAX as u128 {
        None
    } else {
        Some(acc as u64)
    }
}

impl Ladybug {
    /// The position on Ladybug's board.
    pub closed spec fn position(&self) -> PositionView {
        self.board.position@
    }

    /// Ladybug's board holds a well-formed position.
    pub closed spec fn wf(&self) -> bool {
        self.board.wf()
    }

    /// Constructs Ladybug, with the board at the start position.
    pub fn new() -> (l: Ladybug)
        ensures
            l.wf(),
            l.position() == start_view(),
    {
        Ladybug { board: Board::default(), state: State::Idle }
    }

    /// Answers one line of input: parses it as a UCI command and handles it.
    pub fn handle_input(&mut self, input: &str) -> (reply: Reply)
        requires
            old(self).wf(),
        ensures
            final(self).wf(),
            (final(self).position(), string_views(reply.output@), reply.quit) == respond(
                old(self).position(),
                input@,
            ),
    {
        let mut out: Vec<String> = Vec::new();
        assert(string_views(out@) =~= Seq::<Seq<char>>::empty());
        match parse_uci(input) {
            Err(message) => {
                out.push(message);
                assert(string_views(out@) =~= seq![unknown_command_text()]);
                Reply { output: out, quit: false }
            },
            Ok(command) => match command {
                UciCommand::Uci => {
                    push_line(&mut out, "id name Ladybug 0.1.0");
                    push_line(&mut out, "id author Felix O.");
                    push_line(&mut out, "uciok");
                    Reply { output: out, quit: false }
                },
                UciCommand::IsReady => {
                    push_line(&mut out, "readyok");
                    Reply { output: out, quit: false }
                },
                UciCommand::Position(args) => {
                    self.handle_position(args, &mut out);
                    Reply { output: out, quit: false }
                },
                UciCommand::GoPerft(depth) => {
                    match read_depth(&depth) {
                        None => {
                            out.push(unknown_command());
                            assert(string_views(out@) =~= seq![unknown_command_text()]);
                        },
                        Some(_depth) => {},
                    }
                    Reply { output: out, quit: false }
                },
                UciCommand::Quit => {
                    push_line(&mut out, "quit");
                    Reply { output: out, quit: true }
                },
                UciCommand::Help => {
                    push_line(&mut out, "Ladybug is a free and UCI compatible chess engine.");
                    push_line(&mut out, "Currently, Ladybug only implements a subset of the UCI protocol:");
                    push_line(&mut out, "uci                              : Ask Ladybug if she supports UCI");
                    push_line(&mut out, "isready                          : Synchronize Ladybug with the GUI");
                    push_line(&mut out, "position fen <fen> moves <moves> : Setup the board position");
                    push_line(&mut out, "quit                             : Quit Ladybug");
                    push_line(&mut out, "display                          : Print the fen of the current position");
                    assert(string_views(out@) =~= help_text());
                    Reply { output: out, quit: false }
                },
                UciCommand::Display => {
                    out.push(self.board.to_fen());
                    assert(string_views(out@) =~= seq![fen_of(self.position())]);
                    Reply { output: out, quit: false }
                },
            },
        }
    }

    /// Handles the "position" command.
    fn handle_position(&mut self, args: Vec<Vec<char>>, out: &mut Vec<String>)
        requires
            old(self).wf(),
            old(out)@.len() == 0,
        ensures
            final(self).wf(),
            (final(self).position(), string_views(final(out)@)) == position_response(
                old(self).position(),
                views_of(args@),
            ),
    {
        let ghost a = views_of(args@);
        if args.len() == 0 {
            out.push(unknown_command());
            assert(string_views(out@) =~= seq![unknown_command_text()]);
            return;
        }
        assert(args[0]@ == a[0]);
        // build the fen string from the provided args
        let fen: Vec<char> = if word_is(&args[0], "startpos") {
            chars_of("rnbqkbnr/pppppppp/8/8/8/8/PPPPPPPP/RNBQKBNR w KQkq - 0 1")
        } else if word_is(&args[0], "fen") {
            let mut fen: Vec<char> = Vec::new();
            let mut i: usize = 1;
            assert(fen@ =~= Seq::<char>::empty());
            while i < args.len()
                invariant_except_break
                    1 <= i <= args.len(),
                    a == views_of(args@),
                    fen@ + fen_words_text(a, i as int) == fen_words_text(a, 1),
                ensures
                    fen@ == fen_words_text(a, 1),
                decreases args.len() - i,
            {
                assert(args[i as int]@ == a[i as int]);
                if word_is(&args[i], "moves") {
                    assert(fen_words_text(a, i as int) == Seq::<char>::empty());
                    assert(fen@ =~= fen@ + Seq::<char>::empty());
                    break;
                }
                let ghost before = fen@;
                fen.push(' ');
                let mut j: usize = 0;
                while j < args[i].len()
                    invariant
                        i < args.len(),
                        j <= args[i as int]@.len(),
                        fen@ == before + seq![' '] + args[i as int]@.subrange(0, j as int),
                    decreases args[i as int]@.len() - j,
                {
                    fen.push(args[i][j]);
                    j = j + 1;
                    assert(fen@ =~= before + seq![' '] + args[i as int]@.subrange(0, j as int));
                }
                assert(args[i as int]@.subrange(0, j as int) =~= args[i as int]@);
                assert(fen@ + fen_words_text(a, i + 1) =~= before + fen_words_text(a, i as int));
                i = i + 1;
            }
            fen
        } else {
            out.push(unknown_command());
            assert(string_views(out@) =~= seq![unknown_command_text()]);
            return;
        };
        // try to parse the fen
        let mut position: Position = match Position::from_fen_chars(&fen) {
            Some(p) => p,
            None => {
                push_line(out, "info string invalid fen");
                assert(string_views(out@) =~= seq!["info string invalid fen"@]);
                return;
            },
        };
        // find the word "moves"
        let mut k: usize = 0;
        while k < args.len()
            invariant_except_break
                k <= args.len(),
                a == views_of(args@),
                first_index_of(a, "moves"@, 0) == first_index_of(a, "moves"@, k as int),
            ensures
                k < args.len() ==> first_index_of(a, "moves"@, 0) == Some(k as int),
                k >= args.len() ==> first_index_of(a, "moves"@, 0) is None,
            decreases args.len() - k,
        {
            assert(args[k as int]@ == a[k as int]);
            if word_is(&args[k], "moves") {
                break;
            }
            k = k + 1;
        }
        if k >= args.len() {
            // the command contains no moves
            self.board = Board { position };
            assert(string_views(out@) =~= Seq::<Seq<char>>::empty());
            return;
        }
        // make the moves on the board
        let ghost b = position@;
        let ghost fen_v = if a[0] == "startpos"@ { startpos_text() } else { fen_words_text(a, 1) };
        assert(a.len() > 0 && (a[0] == "startpos"@ || a[0] == "fen"@));
        assert(parse_fen(fen_v) == Some(b));
        let mut i: usize = k + 1;
        while i < args.len()
            invariant
                k + 1 <= i <= args.len(),
                a == views_of(args@),
                a.len() > 0 && (a[0] == "startpos"@ || a[0] == "fen"@),
                fen_v == if a[0] == "startpos"@ { startpos_text() } else { fen_words_text(a, 1) },
                parse_fen(fen_v) == Some(b),
                first_index_of(a, "moves"@, 0) == Some(k as int),
                string_views(out@) =~= Seq::<Seq<char>>::empty(),
                self.wf(),
                self.position() == old(self).position(),
                position.wf(),
                play_from(b, a, k + 1) == play_from(position@, a, i as int),
            decreases args.len() - i,
        {
            assert(args[i as int]@ == a[i as int]);
            match Ply::from_chars(&args[i], position) {
                Some(ply) => {
                    proof {
                        crate::move_gen::ply_text::lemma_ply_from_text_on_board(a[i as int], position@);
                    }
                    position = position.make_move(ply);
                },
                None => {
                    push_line(out, "info string invalid moves");
                    assert(string_views(out@) =~= seq!["info string invalid moves"@]);
                    return;
                },
            }
            i = i + 1;
        }
        self.board = Board { position };
        assert(string_views(out@) =~= Seq::<Seq<char>>::empty());
    }
}

} // verus!

verus! {

proof fn lemma_field_not_moves(p: PositionView, k: int)
    requires
        p.wf(),
        0 <= k < 6,
    ensures
        crate::board::fen_laws::fen_fields(p)[k] != "moves"@,
{
    reveal_strlit("moves");
    let ws = crate::board::fen_laws::fen_fields(p);
    let mv = "moves"@;
    assert(mv.len() == 5 && mv[0] == 'm' && mv[1] == 'o' && mv[2] == 'v' && mv[3] == 'e' && mv[4]
        == 's');
    if k == 0 {
        let t = crate::board::fen_spec::rank_text(p, 7);
        let all = crate::board::fen_spec::placement_text(p);
        assert(all == t + seq!['/'] + crate::board::fen_spec::placement_text_from(p, 6));
        assert(all[t.len() as int] == '/');
        if all == mv {
            assert(t.len() < 5);
            assert(mv[t.len() as int] == '/');
        }
    } else if k == 1 {
        match p.color_to_move {
            crate::board::color::Color::White => {},
            crate::board::color::Color::Black => {},
        }
        assert(ws[1].len() == 1);
    } else if k == 2 {
        assert(ws[2].len() <= 4);
    } else if k == 3 {
        assert(ws[3].len() <= 2);
    } else {
        crate::board::fen_laws::lemma_decimal_roundtrip(p.halfmove_clock as nat);
        crate::board::fen_laws::lemma_decimal_roundtrip(p.fullmove_number as nat);
        if ws[k] == mv {
            assert(is_digit(ws[k][0]));
        }
    }
}

proof fn lemma_fen_words_text(args: Seq<Seq<char>>, i: int)
    requires
        1 <= i < args.len(),
        forall|k: int| 1 <= k < args.len() ==> #[trigger] args[k] != "moves"@,
    ensures
        fen_words_text(args, i) == seq![' '] + crate::text::join_spaced(args.skip(i)),
    decreases args.len() - i,
{
    if i + 1 < args.len() {
        lemma_fen_words_text(args, i + 1);
        assert(args.skip(i).skip(1) =~= args.skip(i + 1));
        assert(args.skip(i)[0] == args[i]);
        assert(fen_words_text(args, i) =~= seq![' '] + crate::text::join_spaced(args.skip(i)));
    } else {
        assert(args.skip(i) =~= seq![args[i]]);
        assert(fen_words_text(args, i + 1) == Seq::<char>::empty());
        assert(fen_words_text(args, i) =~= seq![' '] + crate::text::join_spaced(args.skip(i)));
    }
}

/// Setting up a well-formed position `p` with `position fen` followed by its six FEN
/// fields sets the board to `p` without output, whatever the board was; `display` then
/// shows the FEN text of `p`.
pub proof fn lemma_position_fen_then_display(v: PositionView, p: PositionView)
    requires
        p.wf(),
    ensures
        position_response(v, seq!["fen"@] + crate::board::fen_laws::fen_fields(p)) == (
            p,
            Seq::<Seq<char>>::empty(),
        ),
        respond(p, "display"@) == (p, seq![fen_of(p)], false),
{
    reveal_strlit("fen");
    reveal_strlit("startpos");
    reveal_strlit("moves");
    let ws = crate::board::fen_laws::fen_fields(p);
    let args = seq!["fen"@] + ws;
    assert(args[0] == "fen"@);
    assert(args[0] != "startpos"@) by {
        assert("fen"@.len() != "startpos"@.len());
    }
    assert forall|k: int| 1 <= k < args.len() implies #[trigger] args[k] != "moves"@ by {
        assert(args[k] == ws[k - 1]);
        lemma_field_not_moves(p, k - 1);
    }
    assert(args[0] != "moves"@) by {
        assert("fen"@.len() != "moves"@.len());
    }
    lemma_fen_words_text(args, 1);
    assert(args.skip(1) =~= ws);
    let s = fen_words_text(args, 1);
    crate::board::fen_laws::lemma_fen_fields_are_words(p);
    assert(s.subrange(1, s.len() as int) =~= crate::text::join_spaced(ws));
    crate::text::lemma_split_join(s, 1, Seq::empty(), ws);
    assert(s[0] == ' ');
    assert(words(s) == crate::text::split_from(s, 1, Seq::empty(), Seq::empty()));
    assert(Seq::<Seq<char>>::empty() + ws =~= ws);
    assert(words(s) == words(fen_of(p))) by {
        crate::text::lemma_words_of_join(ws);
    }
    crate::board::fen_laws::lemma_fen_roundtrip(p);
    assert(parse_fen(s) == Some(p));
    // "moves" occurs nowhere
    assert forall|k: int| 0 <= k <= args.len() implies first_index_of(args, "moves"@, k) is None by {
        lemma_no_moves_word(args, k);
    }
    // display
    reveal_strlit("display");
    reveal_strlit("uci");
    reveal_strlit("isready");
    reveal_strlit("position");
    reveal_strlit("go");
    reveal_strlit("quit");
    reveal_strlit("help");
    let d = "display"@;
    assert(d.len() == 7);
    assert forall|j: int| 0 <= j < d.len() implies !crate::text::is_space(#[trigger] d[j]) by {}
    assert(d.subrange(0, d.len() as int) =~= crate::text::join_spaced(seq![d]));
    crate::text::lemma_split_join(d, 0, Seq::empty(), seq![d]);
    assert(Seq::<Seq<char>>::empty() + seq![d] =~= seq![d]);
    assert(words(d) == seq![d]);
    assert(d != "uci"@ && d != "isready"@ && d != "position"@ && d != "go"@ && d != "quit"@
        && d != "help"@) by {
        assert(d[0] == 'd');
        assert("uci"@[0] == 'u' && "isready"@[0] == 'i' && "position"@[0] == 'p' && "go"@[0]
            == 'g' && "quit"@[0] == 'q' && "help"@[0] == 'h');
    }
}

proof fn lemma_no_moves_word(args: Seq<Seq<char>>, k: int)
    requires
        0 <= k <= args.len(),
        forall|j: int| 0 <= j < args.len() ==> #[trigger] args[j] != "moves"@,
    ensures
        first_index_of(args, "moves"@, k) is None,
    decreases args.len() - k,
{
    if k < args.len() {
        lemma_no_moves_word(args, k + 1);
    }
}

} // verus!

verus! {

proof fn lemma_start_rank_texts()
    ensures
        crate::board::fen_spec::rank_text(start_view(), 7) == seq!['r', 'n', 'b', 'q', 'k', 'b', 'n', 'r'],
        crate::board::fen_spec::rank_text(start_view(), 6) == seq!['p', 'p', 'p', 'p', 'p', 'p', 'p', 'p'],
        crate::board::fen_spec::rank_text(start_view(), 5) == seq!['8'],
        crate::board::fen_spec::rank_text(start_view(), 4) == seq!['8'],
        crate::board::fen_spec::rank_text(start_view(), 3) == seq!['8'],
        crate::board::fen_spec::rank_text(start_view(), 2) == seq!['8'],
        crate::board::fen_spec::rank_text(start_view(), 1) == seq!['P', 'P', 'P', 'P', 'P', 'P', 'P', 'P'],
        crate::board::fen_spec::rank_text(start_view(), 0) == seq!['R', 'N', 'B', 'Q', 'K', 'B', 'N', 'R'],
{
    reveal_with_fuel(crate::board::fen_spec::rank_text_from, 10);
    let v = start_view();
    assert(crate::text::digit_char(8) == '8');
    assert(crate::board::fen_spec::rank_text(v, 7) =~= seq!['r', 'n', 'b', 'q', 'k', 'b', 'n', 'r']);
    assert(crate::board::fen_spec::rank_text(v, 6) =~= seq!['p', 'p', 'p', 'p', 'p', 'p', 'p', 'p']);
    assert(crate::board::fen_spec::rank_text(v, 5) =~= seq!['8']);
    assert(crate::board::fen_spec::rank_text(v, 4) =~= seq!['8']);
    assert(crate::board::fen_spec::rank_text(v, 3) =~= seq!['8']);
    assert(crate::board::fen_spec::rank_text(v, 2) =~= seq!['8']);
    assert(crate::board::fen_spec::rank_text(v, 1) =~= seq!['P', 'P', 'P', 'P', 'P', 'P', 'P', 'P']);
    assert(crate::board::fen_spec::rank_text(v, 0) =~= seq!['R', 'N', 'B', 'Q', 'K', 'B', 'N', 'R']);
}

/// `position startpos` sets up the start position: the FEN text it reads is the text
/// of the start position.
pub proof fn lemma_startpos_text_is_start_position()
    ensures
        fen_of(start_view()) == startpos_text(),
        parse_fen(startpos_text()) == Some(start_view()),
{
    lemma_start_rank_texts();
    reveal_with_fuel(crate::board::fen_spec::placement_text_from, 9);
    reveal_strlit("rnbqkbnr/pppppppp/8/8/8/8/PPPPPPPP/RNBQKBNR w KQkq - 0 1");
    let v = start_view();
    assert(crate::board::fen_spec::decimal_text(0) =~= seq!['0']);
    assert(crate::board::fen_spec::decimal_text(1) =~= seq!['1']);
    assert(fen_of(v) =~= startpos_text());
    crate::board::fen_laws::lemma_fen_roundtrip(v);
}

} // verus!
