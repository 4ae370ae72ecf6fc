//! The catalog of test messages: eight fixtures of fixed content, each under
//! a type key and a display name, in a fixed order.

use crate::text::{lemma_repeated_len, repeat, repeated, same_text};
use vstd::prelude::*;

verus! {

/// The longest message, in characters, that Telegram accepts in one piece.
pub const TELEGRAM_LIMIT: usize = 4096;

/// The number of fixtures in the catalog.
pub const FIXTURE_COUNT: usize = 8;

/// The fixtures, named by what they exercise.
#[derive(Clone, Copy, Debug, PartialEq, Eq, Structural)]
pub enum FixtureKind {
    /// One short sentence.
    Short,
    /// About a thousand characters.
    Medium,
    /// Longer than the limit.
    Long,
    /// Exactly as long as the limit.
    Exact,
    /// Just longer than the limit.
    Over,
    /// Several times the limit.
    Multi,
    /// Longer than the limit, with many line breaks.
    Newline,
    /// Longer than the limit, with a space after every word.
    Word,
}

/// A test message under its display name.
#[derive(Debug, PartialEq, Eq)]
pub struct Fixture {
    pub name: String,
    pub content: String,
}

impl FixtureKind {
    /// The type key: the lower-case word that selects the fixture.
    pub open spec fn key(self) -> Seq<char> {
        match self {
            FixtureKind::Short => "short"@,
            FixtureKind::Medium => "medium"@,
            FixtureKind::Long => "long"@,
            FixtureKind::Exact => "exact"@,
            FixtureKind::Over => "over"@,
            FixtureKind::Multi => "multi"@,
            FixtureKind::Newline => "newline"@,
            FixtureKind::Word => "word"@,
        }
    }

    /// The display name.
    pub open spec fn label(self) -> Seq<char> {
        match self {
            FixtureKind::Short => "Short Message"@,
            FixtureKind::Medium => "Medium Message"@,
            FixtureKind::Long => "Long Message"@,
            FixtureKind::Exact => "Exact Limit (4096)"@,
            FixtureKind::Over => "Just Over Limit"@,
            FixtureKind::Multi => "Multi-Chunk Message"@,
            FixtureKind::Newline => "Newline Test"@,
            FixtureKind::Word => "Word Boundary Test"@,
        }
    }

    /// The text of the fixture.
    pub open spec fn content(self) -> Seq<char> {
        match self {
            FixtureKind::Short => "Hello! This is a short test message."@,
            FixtureKind::Medium => repeated("This is a medium-length test message. "@, 25),
            FixtureKind::Long => repeated(
                "This is a very long test message that will be split into multiple chunks. "@,
                70,
            ),
            FixtureKind::Exact => repeated("x"@, TELEGRAM_LIMIT as nat),
            FixtureKind::Over => repeated("x"@, 4200),
            FixtureKind::Multi => repeated(
                "Lorem ipsum dolor sit amet, consectetur adipiscing elit. "@,
                250,
            ),
            FixtureKind::Newline => repeated("Line of text\n"@, 400),
            FixtureKind::Word => repeated("word "@, 1000),
        }
    }

    /// The length of the fixture, in characters.
    pub open spec fn length(self) -> nat {
        match self {
            FixtureKind::Short => 36,
            FixtureKind::Medium => 950,
            FixtureKind::Long => 5180,
            FixtureKind::Exact => 4096,
            FixtureKind::Over => 4200,
            FixtureKind::Multi => 14250,
            FixtureKind::Newline => 5200,
            FixtureKind::Word => 5000,
        }
    }

    /// Returns the type key.
    pub fn type_key(self) -> (key: &'static str)
        ensures
            key@ == self.key(),
    {
        match self {
            FixtureKind::Short => "short",
            FixtureKind::Medium => "medium",
            FixtureKind::Long => "long",
            FixtureKind::Exact => "exact",
            FixtureKind::Over => "over",
            FixtureKind::Multi => "multi",
            FixtureKind::Newline => "newline",
            FixtureKind::Word => "word",
        }
    }

    /// Returns the display name.
    pub fn display_name(self) -> (name: &'static str)
        ensures
            name@ == self.label(),
    {
        match self {
            FixtureKind::Short => "Short Message",
            FixtureKind::Medium => "Medium Message",
            FixtureKind::Long => "Long Message",
            FixtureKind::Exact => "Exact Limit (4096)",
            FixtureKind::Over => "Just Over Limit",
            FixtureKind::Multi => "Multi-Chunk Message",
            FixtureKind::Newline => "Newline Test",
            FixtureKind::Word => "Word Boundary Test",
        }
    }

    /// Builds the text of the fixture.
    pub fn generate(self) -> (content: String)
        ensures
            content@ == self.content(),
            content@.len() == self.length(),
    {
        match self {
            FixtureKind::Short => generate_short_message(),
            FixtureKind::Medium => generate_medium_message(),
            FixtureKind::Long => generate_long_message(),
            FixtureKind::Exact => generate_exact_limit_message(),
            FixtureKind::Over => generate_over_limit_message(),
            FixtureKind::Multi => generate_multi_chunk_message(),
            FixtureKind::Newline => generate_newline_message(),
            FixtureKind::Word => generate_word_boundary_message(),
        }
    }

    /// Builds the fixture: its display name and its text.
    pub fn fixture(self) -> (fixture: Fixture)
        ensures
            fixture.name@ == self.label(),
            fixture.content@ == self.content(),
    {
        Fixture { name: self.display_name().to_owned(), content: self.generate() }
    }
}

/// The fixtures in the order of the catalog.
pub open spec fn catalog_order() -> Seq<FixtureKind> {
    seq![
        FixtureKind::Short,
        FixtureKind::Medium,
        FixtureKind::Long,
        FixtureKind::Exact,
        FixtureKind::Over,
        FixtureKind::Multi,
        FixtureKind::Newline,
        FixtureKind::Word,
    ]
}

/// The fixture that `key` selects, or `None` where `key` is no type key.
pub open spec fn kind_of_key(key: Seq<char>) -> Option<FixtureKind> {
    if key == FixtureKind::Short.key() {
        Some(FixtureKind::Short)
    } else if key == FixtureKind::Medium.key() {
        Some(FixtureKind::Medium)
    } else if key == FixtureKind::Long.key() {
        Some(FixtureKind::Long)
    } else if key == FixtureKind::Exact.key() {
        Some(FixtureKind::Exact)
    } else if key == FixtureKind::Over.key() {
        Some(FixtureKind::Over)
    } else if key == FixtureKind::Multi.key() {
        Some(FixtureKind::Multi)
    } else if key == FixtureKind::Newline.key() {
        Some(FixtureKind::Newline)
    } else if key == FixtureKind::Word.key() {
        Some(FixtureKind::Word)
    } else {
        None
    }
}

/// No two fixtures share a type key.
pub proof fn lemma_keys_are_distinct(first: FixtureKind, second: FixtureKind)
    ensures
        first.key() == second.key() <==> first == second,
{
    reveal_strlit("short");
    reveal_strlit("medium");
    reveal_strlit("long");
    reveal_strlit("exact");
    reveal_strlit("over");
    reveal_strlit("multi");
    reveal_strlit("newline");
    reveal_strlit("word");
    if first != second && first.key() == second.key() {
        assert(first.key().len() == second.key().len());
        assert(first.key()[0] == second.key()[0]);
        assert(first.key()[1] == second.key()[1]);
    }
}

/// A text selects a fixture exactly when it is that fixture's type key, so
/// every type key selects one fixture and every other text selects none.
pub proof fn lemma_kind_of_key(key: Seq<char>, kind: FixtureKind)
    ensures
        kind_of_key(key) == Some(kind) <==> key == kind.key(),
        kind_of_key(kind.key()) == Some(kind),
{
    lemma_keys_are_distinct(kind, FixtureKind::Short);
    lemma_keys_are_distinct(kind, FixtureKind::Medium);
    lemma_keys_are_distinct(kind, FixtureKind::Long);
    lemma_keys_are_distinct(kind, FixtureKind::Exact);
    lemma_keys_are_distinct(kind, FixtureKind::Over);
    lemma_keys_are_distinct(kind, FixtureKind::Multi);
    lemma_keys_are_distinct(kind, FixtureKind::Newline);
    lemma_keys_are_distinct(kind, FixtureKind::Word);
}

/// Every fixture stands once in the catalog.
pub proof fn lemma_catalog_is_complete(kind: FixtureKind)
    ensures
        catalog_order().len() == FIXTURE_COUNT,
        exists|i: int| 0 <= i < FIXTURE_COUNT && catalog_order()[i] == kind,
        forall|i: int, j: int|
            0 <= i < j < FIXTURE_COUNT ==> catalog_order()[i] != catalog_order()[j],
{
    let i: int = match kind {
        FixtureKind::Short => 0,
        FixtureKind::Medium => 1,
        FixtureKind::Long => 2,
        FixtureKind::Exact => 3,
        FixtureKind::Over => 4,
        FixtureKind::Multi => 5,
        FixtureKind::Newline => 6,
        FixtureKind::Word => 7,
    };
    assert(catalog_order()[i] == kind);
}

/// The word `all`, which asks for the whole catalog, is no type key.
pub proof fn lemma_all_is_no_type_key()
    ensures
        kind_of_key("all"@) is None,
{
    reveal_strlit("all");
    reveal_strlit("short");
    reveal_strlit("medium");
    reveal_strlit("long");
    reveal_strlit("exact");
    reveal_strlit("over");
    reveal_strlit("multi");
    reveal_strlit("newline");
    reveal_strlit("word");
    assert("all"@.len() == 3);
}

/// Every fixture has the length that is recorded for it.
pub proof fn lemma_fixture_length(kind: FixtureKind)
    ensures
        kind.content().len() == kind.length(),
{
    match kind {
        FixtureKind::Short => {
            reveal_strlit("Hello! This is a short test message.");
        },
        FixtureKind::Medium => {
            reveal_strlit("This is a medium-length test message. ");
            lemma_repeated_len("This is a medium-length test message. "@, 25);
        },
        FixtureKind::Long => {
            reveal_strlit(
                "This is a very long test message that will be split into multiple chunks. ",
            );
            lemma_repeated_len(
                "This is a very long test message that will be split into multiple chunks. "@,
                70,
            );
        },
        FixtureKind::Exact => {
            reveal_strlit("x");
            lemma_repeated_len("x"@, TELEGRAM_LIMIT as nat);
        },
        FixtureKind::Over => {
            reveal_strlit("x");
            lemma_repeated_len("x"@, 4200);
        },
        FixtureKind::Multi => {
            reveal_strlit("Lorem ipsum dolor sit amet, consectetur adipiscing elit. ");
            lemma_repeated_len(
                "Lorem ipsum dolor sit amet, consectetur adipiscing elit. "@,
                250,
            );
        },
        FixtureKind::Newline => {
            reveal_strlit("Line of text\n");
            lemma_repeated_len("Line of text\n"@, 400);
        },
        FixtureKind::Word => {
            reveal_strlit("word ");
            lemma_repeated_len("word "@, 1000);
        },
    }
}

/// Where the lengths stand against the limit: the short and the medium
/// fixture and the one at the limit fit in one piece, the other five do
/// not.
pub proof fn lemma_length_classes()
    ensures
        FixtureKind::Short.length() < 100,
        FixtureKind::Medium.length() <= TELEGRAM_LIMIT,
        FixtureKind::Long.length() > TELEGRAM_LIMIT,
        FixtureKind::Exact.length() == TELEGRAM_LIMIT,
        FixtureKind::Over.length() == TELEGRAM_LIMIT + 104,
        FixtureKind::Multi.length() > 3 * TELEGRAM_LIMIT,
        FixtureKind::Newline.length() > TELEGRAM_LIMIT,
        FixtureKind::Word.length() > TELEGRAM_LIMIT,
{
}

/// Returns the fixtures in the order of the catalog.
pub fn kinds() -> (kinds: Vec<FixtureKind>)
    ensures
        kinds@ == catalog_order(),
{
    let kinds = vec![
        FixtureKind::Short,
        FixtureKind::Medium,
        FixtureKind::Long,
        FixtureKind::Exact,
        FixtureKind::Over,
        FixtureKind::Multi,
        FixtureKind::Newline,
        FixtureKind::Word,
    ];
    assert(kinds@ =~= catalog_order());
    kinds
}

/// Returns the type keys in the order of the catalog.
pub fn type_keys() -> (keys: Vec<&'static str>)
    ensures
        keys@.len() == FIXTURE_COUNT,
        forall|i: int|
            0 <= i < FIXTURE_COUNT ==> (#[trigger] keys@[i])@ == catalog_order()[i].key(),
{
    let kinds = kinds();
    let mut keys: Vec<&'static str> = Vec::new();
    let mut next: usize = 0;
    while next < kinds.len()
        invariant
            kinds@ == catalog_order(),
            next <= kinds@.len(),
            keys@.len() == next,
            forall|i: int| 0 <= i < next ==> (#[trigger] keys@[i])@ == catalog_order()[i].key(),
        decreases kinds@.len() - next,
    {
        keys.push(kinds[next].type_key());
        next += 1;
    }
    keys
}

/// Builds the catalog: every fixture under its display name, in order.
pub fn catalog() -> (fixtures: Vec<Fixture>)
    ensures
        fixtures@.len() == FIXTURE_COUNT,
        forall|i: int|
            0 <= i < FIXTURE_COUNT ==> {
                &&& (#[trigger] fixtures@[i]).name@ == catalog_order()[i].label()
                &&& fixtures@[i].content@ == catalog_order()[i].content()
            },
{
    let kinds = kinds();
    let mut fixtures: Vec<Fixture> = Vec::new();
    let mut next: usize = 0;
    while next < kinds.len()
        invariant
            kinds@ == catalog_order(),
            next <= kinds@.len(),
            fixtures@.len() == next,
            forall|i: int|
                0 <= i < next ==> {
                    &&& (#[trigger] fixtures@[i]).name@ == catalog_order()[i].label()
                    &&& fixtures@[i].content@ == catalog_order()[i].content()
                },
        decreases kinds@.len() - next,
    {
        fixtures.push(kinds[next].fixture());
        next += 1;
    }
    fixtures
}

/// Finds the fixture that `key` selects. The key is compared as it stands:
/// letter case counts.
pub fn find_kind(key: &str) -> (found: Option<FixtureKind>)
    ensures
        found == kind_of_key(key@),
        match found {
            Some(kind) => kind.key() == key@,
            None => forall|kind: FixtureKind| kind.key() != key@,
        },
{
    let kinds = kinds();
    let mut next: usize = 0;
    while next < kinds.len()
        invariant
            kinds@ == catalog_order(),
            next <= kinds@.len(),
            forall|i: int| 0 <= i < next ==> (#[trigger] catalog_order()[i]).key() != key@,
        decreases kinds@.len() - next,
    {
        let kind = kinds[next];
        if same_text(key, kind.type_key()) {
            proof {
                lemma_kind_of_key(key@, kind);
            }
            return Some(kind);
        }
        next += 1;
    }
    proof {
        assert forall|kind: FixtureKind| kind.key() != key@ by {
            lemma_catalog_is_complete(kind);
        }
    }
    None
}

/// The short fixture: one sentence of 36 characters.
pub fn generate_short_message() -> (message: String)
    ensures
        message@ == FixtureKind::Short.content(),
        message@.len() == 36,
{
    proof {
        lemma_fixture_length(FixtureKind::Short);
    }
    "Hello! This is a short test message.".to_owned()
}

/// The medium fixture: a phrase of 38 characters, 25 times.
pub fn generate_medium_message() -> (message: String)
    ensures
        message@ == FixtureKind::Medium.content(),
        message@.len() == 950,
{
    proof {
        lemma_fixture_length(FixtureKind::Medium);
    }
    repeat("This is a medium-length test message. ", 25)
}

/// The long fixture: a phrase of 74 characters, 70 times.
pub fn generate_long_message() -> (message: String)
    ensures
        message@ == FixtureKind::Long.content(),
        message@.len() == 5180,
{
    proof {
        lemma_fixture_length(FixtureKind::Long);
    }
    repeat("This is a very long test message that will be split into multiple chunks. ", 70)
}

/// The fixture at the limit: one character, `TELEGRAM_LIMIT` times.
pub fn generate_exact_limit_message() -> (message: String)
    ensures
        message@ == FixtureKind::Exact.content(),
        message@.len() == TELEGRAM_LIMIT,
{
    proof {
        lemma_fixture_length(FixtureKind::Exact);
    }
    repeat("x", TELEGRAM_LIMIT)
}

/// The fixture just over the limit: one character, 4200 times.
pub fn generate_over_limit_message() -> (message: String)
    ensures
        message@ == FixtureKind::Over.content(),
        message@.len() == 4200,
{
    proof {
        lemma_fixture_length(FixtureKind::Over);
    }
    repeat("x", 4200)
}

/// The fixture of several pieces: a sentence of 57 characters, 250 times.
pub fn generate_multi_chunk_message() -> (message: String)
    ensures
        message@ == FixtureKind::Multi.content(),
        message@.len() == 14250,
{
    proof {
        lemma_fixture_length(FixtureKind::Multi);
    }
    repeat("Lorem ipsum dolor sit amet, consectetur adipiscing elit. ", 250)
}

/// The fixture of many lines: a line of 12 characters and its line break,
/// 400 times.
pub fn generate_newline_message() -> (message: String)
    ensures
        message@ == FixtureKind::Newline.content(),
        message@.len() == 5200,
{
    proof {
        lemma_fixture_length(FixtureKind::Newline);
    }
    repeat("Line of text\n", 400)
}

/// The fixture of many words: a word of four letters and a space, 1000
/// times.
pub fn generate_word_boundary_message() -> (message: String)
    ensures
        message@ == FixtureKind::Word.content(),
        message@.len() == 5000,
{
    proof {
        lemma_fixture_length(FixtureKind::Word);
    }
    repeat("word ", 1000)
}

} // verus!
