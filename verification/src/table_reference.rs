//! References to tables, as a dataset's path spells them.

use vstd::prelude::*;

verus! {

/// A reference to a table, qualified as far as its path qualifies it.
#[derive(Debug, PartialEq, Eq)]
pub enum TableReference {
    /// A table alone.
    Bare { table: String },
    /// A table of a schema.
    Partial { schema: String, table: String },
    /// A table of a schema of a catalog.
    Full { catalog: String, schema: String, table: String },
}

/// The names that the reference is made of, the table's last.
impl View for TableReference {
    type V = Seq<Seq<char>>;

    open spec fn view(&self) -> Seq<Seq<char>> {
        match self {
            TableReference::Bare { table } => seq![table@],
            TableReference::Partial { schema, table } => seq![schema@, table@],
            TableReference::Full { catalog, schema, table } => seq![catalog@, schema@, table@],
        }
    }
}

/// Whether `c` is an ASCII letter or an underscore.
pub open spec fn is_identifier_start(c: char) -> bool {
    'a' <= c <= 'z' || 'A' <= c <= 'Z' || c == '_'
}

/// Whether `c` is an ASCII letter, an ASCII digit, an underscore, or one of the
/// signs that an identifier may hold behind its first character.
pub open spec fn is_identifier_char(c: char) -> bool {
    is_identifier_start(c) || '0' <= c <= '9' || c == '$' || c == '#' || c == '@'
}

/// Whether `s` is an identifier that SQL reads without quotes: a letter or an
/// underscore, and then letters, digits, underscores and signs, all ASCII.
pub open spec fn is_plain_identifier(s: Seq<char>) -> bool {
    &&& s.len() > 0
    &&& is_identifier_start(s[0])
    &&& forall|i: int| 0 <= i < s.len() ==> is_identifier_char(#[trigger] s[i])
}

/// Whether every name of `parts` is a plain identifier, and there is one.
pub open spec fn are_plain_identifiers(parts: Seq<Seq<char>>) -> bool {
    &&& parts.len() > 0
    &&& forall|i: int| 0 <= i < parts.len() ==> is_plain_identifier(#[trigger] parts[i])
}

/// The names of `parts` with a period between each two of them.
pub open spec fn dotted(parts: Seq<Seq<char>>) -> Seq<char>
    decreases parts.len(),
{
    if parts.len() == 0 {
        Seq::empty()
    } else if parts.len() == 1 {
        parts[0]
    } else {
        parts[0] + seq!['.'] + dotted(parts.drop_first())
    }
}

/// `c` in lower case, where it is an ASCII letter.
pub open spec fn lowercase_char(c: char) -> char {
    if 'A' <= c <= 'Z' {
        (c as int - 'A' as int + 'a' as int) as char
    } else {
        c
    }
}

/// `s` with its ASCII letters in lower case.
pub open spec fn lowercase(s: Seq<char>) -> Seq<char> {
    s.map_values(|c: char| lowercase_char(c))
}

/// The reference that a path of plain identifiers spells: up to three names
/// are those of the catalog, the schema and the table, in lower case. A longer
/// path has no such reading, and is the table's name as it stands.
pub open spec fn plain_reference(parts: Seq<Seq<char>>) -> Seq<Seq<char>> {
    if parts.len() <= 3 {
        parts.map_values(|part: Seq<char>| lowercase(part))
    } else {
        seq![dotted(parts)]
    }
}

/// Whether `s` holds nothing but spaces, tabs and line ends.
pub open spec fn is_blank(s: Seq<char>) -> bool {
    forall|i: int|
        0 <= i < s.len() ==> (#[trigger] s[i] == ' ' || s[i] == '\t' || s[i] == '\n' || s[i]
            == '\r')
}

/// `text` with each `quote` in it written twice.
pub open spec fn escaped(quote: char, text: Seq<char>) -> Seq<char>
    decreases text.len(),
{
    if text.len() == 0 {
        Seq::empty()
    } else if text.last() == quote {
        escaped(quote, text.drop_last()) + seq![quote, quote]
    } else {
        escaped(quote, text.drop_last()).push(text.last())
    }
}

/// A name as a path can write it.
pub enum Name {
    /// An identifier without quotes.
    Plain(Seq<char>),
    /// A text between two of the given quotes.
    Quoted(char, Seq<char>),
}

impl Name {
    /// Whether SQL takes the name in the form that it has.
    pub open spec fn is_valid(self) -> bool {
        match self {
            Name::Plain(s) => is_plain_identifier(s),
            Name::Quoted(quote, _) => quote == '"' || quote == '`',
        }
    }

    /// The characters that the name is written with.
    pub open spec fn spelling(self) -> Seq<char> {
        match self {
            Name::Plain(s) => s,
            Name::Quoted(quote, text) => seq![quote] + escaped(quote, text) + seq![quote],
        }
    }

    /// What the name is the name of: without quotes, case does not count.
    pub open spec fn meaning(self) -> Seq<char> {
        match self {
            Name::Plain(s) => lowercase(s),
            Name::Quoted(_, text) => text,
        }
    }
}

/// A name with the blanks around it.
pub struct WrittenName {
    pub before: Seq<char>,
    pub name: Name,
    pub after: Seq<char>,
}

impl WrittenName {
    /// Whether the name is valid and the blanks are blank.
    pub open spec fn is_valid(self) -> bool {
        is_blank(self.before) && self.name.is_valid() && is_blank(self.after)
    }

    /// The characters of the name and of the blanks around it.
    pub open spec fn spelling(self) -> Seq<char> {
        self.before + self.name.spelling() + self.after
    }
}

/// Whether every name of `names` is valid.
pub open spec fn are_valid(names: Seq<WrittenName>) -> bool {
    forall|i: int| 0 <= i < names.len() ==> (#[trigger] names[i]).is_valid()
}

/// The path that `names` are written as, with a period between each two.
pub open spec fn spelled(names: Seq<WrittenName>) -> Seq<char> {
    dotted(names.map_values(|name: WrittenName| name.spelling()))
}

/// Whether a name has blanks behind it, and then a period with an underscore
/// right after it, which SQL does not take.
pub open spec fn has_detached_underscore(names: Seq<WrittenName>) -> bool {
    exists|i: int|
        0 <= i < names.len() - 1 && (#[trigger] names[i]).after.len() > 0
            && names[i + 1].spelling()[0] == '_'
}

/// The path that begins with `names` and goes on with `rest`.
pub open spec fn continued(names: Seq<WrittenName>, rest: Seq<char>) -> Seq<char> {
    spelled(names) + rest
}

/// The path in which `rest` stands where a name is due, behind `blanks`: at the
/// path's start, or behind `names` and a period.
pub open spec fn due(names: Seq<WrittenName>, blanks: Seq<char>, rest: Seq<char>) -> Seq<char> {
    if names.len() == 0 {
        blanks + rest
    } else {
        spelled(names) + seq!['.'] + blanks + rest
    }
}

/// Whether `rest` begins with a visible ASCII character that begins no comment.
pub open spec fn begins_visibly(rest: Seq<char>) -> bool {
    &&& rest.len() > 0
    &&& '!' <= rest[0] <= '~'
    &&& !(rest.len() > 1 && rest[0] == '-' && rest[1] == '-')
    &&& !(rest.len() > 1 && rest[0] == '/' && rest[1] == '*')
}

/// Whether what `rest` begins with can neither belong to `last`, which stands
/// before it, nor lead on to another name.
pub open spec fn is_stray(last: WrittenName, rest: Seq<char>) -> bool {
    &&& begins_visibly(rest)
    &&& rest[0] != '.'
    &&& last.after.len() == 0 ==> match last.name {
        Name::Plain(_) => !is_identifier_char(rest[0]),
        Name::Quoted(quote, _) => rest[0] != quote,
    }
}

/// Whether `rest` is a quote and a text that no quote ends.
pub open spec fn is_unclosed(rest: Seq<char>) -> bool {
    exists|quote: char, text: Seq<char>|
        (quote == '"' || quote == '`') && rest == seq![quote] + #[trigger] escaped(quote, text)
}

/// Whether no name begins where `rest` begins.
pub open spec fn begins_no_name(rest: Seq<char>) -> bool {
    ||| rest.len() == 0
    ||| begins_visibly(rest) && !is_identifier_start(rest[0]) && rest[0] != '"' && rest[0] != '`'
        && rest[0] != '@' && rest[0] != '#'
    ||| is_unclosed(rest)
}

/// Whether `reference` is what SQL reads `path` as. Up to three names are those
/// of the catalog, the schema and the table. Any other path is a table's name as
/// it stands: one of more names, one that goes on behind a name with something
/// else than a period, and one that lacks a name where one is due.
pub open spec fn is_reading(path: Seq<char>, reference: Seq<Seq<char>>) -> bool {
    &&& forall|names: Seq<WrittenName>|
        names.len() > 0 && are_valid(names) && #[trigger] spelled(names) == path ==> reference == (
        if names.len() <= 3 && !has_detached_underscore(names) {
            names.map_values(|name: WrittenName| name.name.meaning())
        } else {
            seq![path]
        })
    &&& forall|names: Seq<WrittenName>, rest: Seq<char>|
        names.len() > 0 && are_valid(names) && is_stray(names.last(), rest) && #[trigger] continued(
            names,
            rest,
        ) == path ==> reference == seq![path]
    &&& forall|names: Seq<WrittenName>, blanks: Seq<char>, rest: Seq<char>|
        are_valid(names) && is_blank(blanks) && begins_no_name(rest) && #[trigger] due(
            names,
            blanks,
            rest,
        ) == path ==> reference == seq![path]
}

/// A path of plain identifiers spells one sequence of names only.
pub proof fn law_path_spells_one_sequence_of_names(a: Seq<Seq<char>>, b: Seq<Seq<char>>)
    requires
        are_plain_identifiers(a),
        are_plain_identifiers(b),
        dotted(a) == dotted(b),
    ensures
        a == b,
    decreases a.len(),
{
    let path = dotted(a);
    if a.len() > 1 {
        assert(path[a[0].len() as int] == '.');
    }
    if b.len() > 1 {
        assert(path[b[0].len() as int] == '.');
    }
    assert(forall|i: int| 0 <= i < a[0].len() ==> path[i] == a[0][i] && path[i] != '.') by {
        assert(is_plain_identifier(a[0]));
    }
    assert(forall|i: int| 0 <= i < b[0].len() ==> path[i] == b[0][i] && path[i] != '.') by {
        assert(is_plain_identifier(b[0]));
    }
    assert(a[0].len() == b[0].len());
    assert forall|i: int| 0 <= i < a[0].len() implies a[0][i] == b[0][i] by {
        assert(path[i] == a[0][i] && path[i] == b[0][i]);
    }
    assert(a[0] =~= b[0]);
    if a.len() > 1 {
        let n = a[0].len() as int + 1;
        assert(dotted(a.drop_first()) =~= path.skip(n));
        assert(dotted(b.drop_first()) =~= path.skip(n));
        assert forall|i: int| 0 <= i < a.drop_first().len() implies is_plain_identifier(
            #[trigger] a.drop_first()[i],
        ) by {
            assert(a.drop_first()[i] == a[i + 1]);
        }
        assert forall|i: int| 0 <= i < b.drop_first().len() implies is_plain_identifier(
            #[trigger] b.drop_first()[i],
        ) by {
            assert(b.drop_first()[i] == b[i + 1]);
        }
        law_path_spells_one_sequence_of_names(a.drop_first(), b.drop_first());
        assert(a =~= seq![a[0]] + a.drop_first());
        assert(b =~= seq![b[0]] + b.drop_first());
    }
    assert(a =~= b);
}

/// The names of a reference that a path of up to three plain identifiers
/// spells are plain identifiers again, and spell the same reference.
pub proof fn law_plain_reference_spells_itself(parts: Seq<Seq<char>>)
    requires
        are_plain_identifiers(parts),
        parts.len() <= 3,
    ensures
        are_plain_identifiers(plain_reference(parts)),
        plain_reference(plain_reference(parts)) == plain_reference(parts),
{
    let names = plain_reference(parts);
    assert forall|i: int| 0 <= i < names.len() implies is_plain_identifier(#[trigger] names[i])
        && lowercase(names[i]) == names[i] by {
        assert(is_plain_identifier(parts[i]));
        assert(lowercase(names[i]) =~= names[i]);
    }
    assert(plain_reference(names) =~= names);
}

/// The names of the reference that `datafusion_common` parses a path into.
pub uninterp spec fn parsed_reference(path: Seq<char>) -> Seq<Seq<char>>;

/// Calls `datafusion_common::TableReference::parse_str`, which reads `path` as
/// a multipart SQL identifier: it folds unquoted names to lower case, and takes
/// a path that is no such identifier, or has more than three names, as the name
/// of a table. The result is a function of the path. `is_reading` states it for
/// paths of plain and quoted names with blanks around them, and for paths that
/// break off or go on otherwise. Left to `parsed_reference` is what comments,
/// characters outside visible ASCII that stand outside quotes, and names that
/// begin with `@` or `#` do to a path.
#[verifier::external_body]
pub(crate) fn parse_table_reference(path: &str) -> (reference: TableReference)
    ensures
        reference@ == parsed_reference(path@),
        forall|parts: Seq<Seq<char>>|
            are_plain_identifiers(parts) && #[trigger] dotted(parts) == path@ ==> reference@
                == plain_reference(parts),
        is_reading(path@, reference@),
{
    match datafusion_common::TableReference::parse_str(path) {
        datafusion_common::TableReference::Bare { table } => {
            TableReference::Bare { table: table.to_string() }
        },
        datafusion_common::TableReference::Partial { schema, table } => {
            TableReference::Partial { schema: schema.to_string(), table: table.to_string() }
        },
        datafusion_common::TableReference::Full { catalog, schema, table } => {
            TableReference::Full {
                catalog: catalog.to_string(),
                schema: schema.to_string(),
                table: table.to_string(),
            }
        },
    }
}

} // verus!
