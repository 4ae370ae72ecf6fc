//! The command-line front end: from the first argument to what is written
//! to the two output streams and the exit code.

use crate::fixtures::{
    catalog, catalog_order, find_kind, kind_of_key, lemma_all_is_no_type_key, lemma_kind_of_key,
    FixtureKind, FIXTURE_COUNT,
};
use crate::info::{info_lines, message_info};
use crate::text::same_text;
use vstd::prelude::*;

verus! {

/// What an invocation produces. Each entry of `stdout` and of `stderr` is
/// written to its stream followed by a line break, in order.
#[derive(Debug, PartialEq, Eq)]
pub struct Outcome {
    pub stdout: Vec<String>,
    pub stderr: Vec<String>,
    pub exit_code: i32,
}

/// An `Outcome` as plain text.
pub struct OutcomeView {
    pub stdout: Seq<Seq<char>>,
    pub stderr: Seq<Seq<char>>,
    pub exit_code: int,
}

impl View for Outcome {
    type V = OutcomeView;

    open spec fn view(&self) -> OutcomeView {
        OutcomeView {
            stdout: self.stdout.deep_view(),
            stderr: self.stderr.deep_view(),
            exit_code: self.exit_code as int,
        }
    }
}

/// The help text, line by line.
pub open spec fn usage_lines() -> Seq<Seq<char>> {
    seq![
        "Usage: generate_test_messages [type]"@,
        ""@,
        "Available types:"@,
        "  short      - Short message (< 100 chars)"@,
        "  medium     - Medium message (~1000 chars)"@,
        "  long       - Long message (~5000 chars, requires splitting)"@,
        "  exact      - Exactly 4096 chars"@,
        "  over       - Just over 4096 chars"@,
        "  multi      - Very long (3+ chunks)"@,
        "  newline    - Many newlines (tests line splitting)"@,
        "  word       - Clear word boundaries"@,
        "  all        - Show info for all types"@,
        ""@,
        "Example:"@,
        "  generate_test_messages long"@,
    ]
}

/// The complaint about a key that selects nothing: the key in quotes, then
/// a hint at the help text.
pub open spec fn unknown_type_lines(key: Seq<char>) -> Seq<Seq<char>> {
    seq![
        "Error: Unknown type '"@ + key + "'"@,
        "Run without arguments to see available types."@,
    ]
}

/// The diagnostic block of a fixture: that of its text under its display
/// name.
pub open spec fn fixture_info_lines(kind: FixtureKind) -> Seq<Seq<char>> {
    info_lines(kind.content(), kind.label())
}

/// The diagnostic blocks of the first `count` fixtures of the catalog, one
/// after the other in the order of the catalog.
pub open spec fn catalog_info_lines(count: nat) -> Seq<Seq<char>>
    decreases count,
{
    if count == 0 {
        Seq::empty()
    } else {
        catalog_info_lines((count - 1) as nat) + fixture_info_lines(catalog_order()[count - 1])
    }
}

/// The blocks of the whole catalog are those of the eight fixtures, each
/// once, in the order of the catalog.
pub proof fn lemma_catalog_info_lines()
    ensures
        catalog_info_lines(FIXTURE_COUNT as nat) == fixture_info_lines(FixtureKind::Short)
            + fixture_info_lines(FixtureKind::Medium) + fixture_info_lines(FixtureKind::Long)
            + fixture_info_lines(FixtureKind::Exact) + fixture_info_lines(FixtureKind::Over)
            + fixture_info_lines(FixtureKind::Multi) + fixture_info_lines(FixtureKind::Newline)
            + fixture_info_lines(FixtureKind::Word),
{
    reveal_with_fuel(catalog_info_lines, 9);
    assert(catalog_info_lines(0) + fixture_info_lines(FixtureKind::Short) =~= fixture_info_lines(
        FixtureKind::Short,
    ));
}

/// The outcome of an invocation without an argument: the help text and a
/// failure.
pub open spec fn usage_outcome() -> OutcomeView {
    OutcomeView { stdout: usage_lines(), stderr: Seq::empty(), exit_code: 1 }
}

/// The outcome for a key in lower case: the diagnostic blocks of the whole
/// catalog for `all`, the bare text of the fixture for a type key, and a
/// complaint with a failure for anything else.
pub open spec fn response(key: Seq<char>) -> OutcomeView {
    if key == "all"@ {
        OutcomeView {
            stdout: catalog_info_lines(FIXTURE_COUNT as nat),
            stderr: Seq::empty(),
            exit_code: 0,
        }
    } else {
        match kind_of_key(key) {
            Some(kind) => OutcomeView {
                stdout: seq![kind.content()],
                stderr: Seq::empty(),
                exit_code: 0,
            },
            None => OutcomeView {
                stdout: Seq::empty(),
                stderr: unknown_type_lines(key),
                exit_code: 1,
            },
        }
    }
}

/// Whether `word` stands in `line` from the place `at` on.
pub open spec fn holds_at(line: Seq<char>, at: int, word: Seq<char>) -> bool {
    &&& 0 <= at
    &&& at + word.len() <= line.len()
    &&& line.subrange(at, at + word.len()) == word
}

/// The help text names every type key, in the order of the catalog, and
/// after them the word `all`: each on a line of its own.
pub proof fn lemma_usage_lists_every_key(place: int)
    requires
        0 <= place < FIXTURE_COUNT,
    ensures
        holds_at(usage_lines()[3 + place], 2, catalog_order()[place].key()),
        holds_at(usage_lines()[3 + FIXTURE_COUNT], 2, "all"@),
{
    reveal_strlit("  short      - Short message (< 100 chars)");
    reveal_strlit("  medium     - Medium message (~1000 chars)");
    reveal_strlit("  long       - Long message (~5000 chars, requires splitting)");
    reveal_strlit("  exact      - Exactly 4096 chars");
    reveal_strlit("  over       - Just over 4096 chars");
    reveal_strlit("  multi      - Very long (3+ chunks)");
    reveal_strlit("  newline    - Many newlines (tests line splitting)");
    reveal_strlit("  word       - Clear word boundaries");
    reveal_strlit("  all        - Show info for all types");
    reveal_strlit("short");
    reveal_strlit("medium");
    reveal_strlit("long");
    reveal_strlit("exact");
    reveal_strlit("over");
    reveal_strlit("multi");
    reveal_strlit("newline");
    reveal_strlit("word");
    reveal_strlit("all");
    let key = catalog_order()[place].key();
    assert(usage_lines()[3 + place].subrange(2, 2 + key.len() as int) =~= key);
    assert(usage_lines()[3 + FIXTURE_COUNT].subrange(2, 2 + "all"@.len() as int) =~= "all"@);
}

/// The word `all` gives the block of each of the eight fixtures, in the
/// order of the catalog, on the output stream and succeeds.
pub proof fn lemma_all_gives_every_block()
    ensures
        response("all"@) == (OutcomeView {
            stdout: fixture_info_lines(FixtureKind::Short) + fixture_info_lines(
                FixtureKind::Medium,
            ) + fixture_info_lines(FixtureKind::Long) + fixture_info_lines(FixtureKind::Exact)
                + fixture_info_lines(FixtureKind::Over) + fixture_info_lines(FixtureKind::Multi)
                + fixture_info_lines(FixtureKind::Newline) + fixture_info_lines(
                FixtureKind::Word,
            ),
            stderr: Seq::empty(),
            exit_code: 0,
        }),
{
    lemma_catalog_info_lines();
}

/// A type key gives the bare text of its fixture on the output stream and
/// succeeds.
pub proof fn lemma_type_key_gives_bare_text(kind: FixtureKind)
    ensures
        response(kind.key()) == (OutcomeView {
            stdout: seq![kind.content()],
            stderr: Seq::empty(),
            exit_code: 0,
        }),
{
    lemma_all_is_no_type_key();
    lemma_kind_of_key(kind.key(), kind);
}

/// Any other key fails: nothing goes to the output stream, and the first
/// line on the error stream names the key.
pub proof fn lemma_unknown_key_is_named(key: Seq<char>)
    requires
        key != "all"@,
        forall|kind: FixtureKind| key != kind.key(),
    ensures
        response(key).exit_code != 0,
        response(key).stdout.len() == 0,
        response(key).stderr.len() == 2,
        holds_at(response(key).stderr[0], "Error: Unknown type '"@.len() as int, key),
{
    let opening = "Error: Unknown type '"@;
    let line = opening + key + "'"@;
    assert(line.subrange(opening.len() as int, (opening.len() + key.len()) as int) =~= key);
}

/// The lower-case form of `text` as `str::to_lowercase` of the standard
/// library returns it, by the rules of Unicode.
pub uninterp spec fn lowercase_of(text: Seq<char>) -> Seq<char>;

/// Calls `str::to_lowercase`. Not verified: the contract only gives the
/// result its name, on the ground that the standard library folds case by
/// tables that are fixed when it is built, so that the result depends on
/// `text` alone.
#[verifier::external_body]
fn to_lowercase(text: &str) -> (lower: String)
    ensures
        lower@ == lowercase_of(text@),
{
    text.to_lowercase()
}

/// Returns the outcome of an invocation without an argument.
pub fn usage() -> (outcome: Outcome)
    ensures
        outcome@ == usage_outcome(),
{
    let stdout = vec![
        "Usage: generate_test_messages [type]".to_owned(),
        "".to_owned(),
        "Available types:".to_owned(),
        "  short      - Short message (< 100 chars)".to_owned(),
        "  medium     - Medium message (~1000 chars)".to_owned(),
        "  long       - Long message (~5000 chars, requires splitting)".to_owned(),
        "  exact      - Exactly 4096 chars".to_owned(),
        "  over       - Just over 4096 chars".to_owned(),
        "  multi      - Very long (3+ chunks)".to_owned(),
        "  newline    - Many newlines (tests line splitting)".to_owned(),
        "  word       - Clear word boundaries".to_owned(),
        "  all        - Show info for all types".to_owned(),
        "".to_owned(),
        "Example:".to_owned(),
        "  generate_test_messages long".to_owned(),
    ];
    let outcome = Outcome { stdout, stderr: Vec::new(), exit_code: 1 };
    assert(outcome.stdout.deep_view() =~= usage_lines());
    assert(outcome.stderr.deep_view() =~= Seq::<Seq<char>>::empty());
    outcome
}

/// Returns the diagnostic blocks of the whole catalog, line by line.
pub fn all_info() -> (lines: Vec<String>)
    ensures
        lines.deep_view() == catalog_info_lines(FIXTURE_COUNT as nat),
{
    let fixtures = catalog();
    let mut lines: Vec<String> = Vec::new();
    let mut next: usize = 0;
    assert(lines.deep_view() =~= catalog_info_lines(0));
    while next < fixtures.len()
        invariant
            fixtures@.len() == FIXTURE_COUNT,
            forall|i: int|
                0 <= i < FIXTURE_COUNT ==> {
                    &&& (#[trigger] fixtures@[i]).name@ == catalog_order()[i].label()
                    &&& fixtures@[i].content@ == catalog_order()[i].content()
                },
            next <= FIXTURE_COUNT,
            lines.deep_view() == catalog_info_lines(next as nat),
        decreases FIXTURE_COUNT - next,
    {
        let fixture = &fixtures[next];
        let mut block = message_info(fixture.content.as_str(), fixture.name.as_str());
        let ghost before = lines.deep_view();
        let ghost added = block.deep_view();
        lines.append(&mut block);
        assert(lines.deep_view() =~= before + added);
        next += 1;
    }
    lines
}

/// Answers a key that is already in lower case.
pub fn respond(key: &str) -> (outcome: Outcome)
    ensures
        outcome@ == response(key@),
{
    if same_text(key, "all") {
        let outcome = Outcome { stdout: all_info(), stderr: Vec::new(), exit_code: 0 };
        assert(outcome.stderr.deep_view() =~= Seq::<Seq<char>>::empty());
        outcome
    } else {
        match find_kind(key) {
            Some(kind) => {
                let outcome = Outcome {
                    stdout: vec![kind.generate()],
                    stderr: Vec::new(),
                    exit_code: 0,
                };
                assert(outcome.stdout.deep_view() =~= seq![kind.content()]);
                assert(outcome.stderr.deep_view() =~= Seq::<Seq<char>>::empty());
                outcome
            },
            None => {
                let mut complaint = "Error: Unknown type '".to_owned();
                complaint.append(key);
                complaint.append("'");
                let outcome = Outcome {
                    stdout: Vec::new(),
                    stderr: vec![
                        complaint,
                        "Run without arguments to see available types.".to_owned(),
                    ],
                    exit_code: 1,
                };
                assert(outcome.stdout.deep_view() =~= Seq::<Seq<char>>::empty());
                assert(outcome.stderr.deep_view() =~= unknown_type_lines(key@));
                outcome
            },
        }
    }
}

/// Answers an invocation. `args` are the arguments of the process as the
/// system hands them over: the name of the program first, then what the
/// user gave. Without an argument of the user the answer is the help text
/// and a failure. Otherwise the first argument decides, and what follows
/// it is ignored. Letter case in it does not count: it is answered by its
/// lower-case form.
pub fn run(args: &Vec<String>) -> (outcome: Outcome)
    ensures
        outcome@ == if args@.len() > 1 {
            response(lowercase_of(args@[1]@))
        } else {
            usage_outcome()
        },
{
    if args.len() > 1 {
        let key = to_lowercase(args[1].as_str());
        respond(key.as_str())
    } else {
        usage()
    }
}

} // verus!
