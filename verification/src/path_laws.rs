//! What holds of how a dataset's path is read, whatever the path.

use crate::table_reference::{
    are_plain_identifiers, are_valid, continued, dotted, due, escaped, has_detached_underscore,
    is_blank, is_identifier_char, is_plain_identifier, is_reading, is_stray, is_unclosed, lowercase,
    plain_reference, spelled, Name, TableReference, WrittenName,
};
use vstd::prelude::*;

verus! {

/// A reference of one name is a table alone, one of two names a schema and a
/// table, and one of three names a catalog, a schema and a table.
pub proof fn law_names_of_a_reference(reference: TableReference)
    ensures
        match reference {
            TableReference::Bare { table } => reference@.len() == 1 && reference@[0] == table@,
            TableReference::Partial { schema, table } => reference@.len() == 2 && reference@[0]
                == schema@ && reference@[1] == table@,
            TableReference::Full { catalog, schema, table } => reference@.len() == 3
                && reference@[0] == catalog@ && reference@[1] == schema@ && reference@[2] == table@,
        },
{
}

/// Lower case keeps every character in its place, and changes ASCII capitals
/// alone, each to the letter of the same name.
pub proof fn law_lower_case_changes_capitals_alone(s: Seq<char>)
    ensures
        lowercase(s).len() == s.len(),
        forall|i: int|
            0 <= i < s.len() && 'A' <= s[i] <= 'Z' ==> (#[trigger] lowercase(s)[i]) as int == s[i]
                as int + 32,
        forall|i: int|
            0 <= i < s.len() && !('A' <= s[i] <= 'Z') ==> #[trigger] lowercase(s)[i] == s[i],
{
}

/// A plain identifier is a letter or an underscore, and then any number of
/// letters, digits, underscores, dollar, number and at signs.
pub proof fn law_plain_identifiers(s: Seq<char>)
    ensures
        is_plain_identifier(s) <==> s.len() > 0 && ('a' <= s[0] <= 'z' || 'A' <= s[0] <= 'Z' || s[0]
            == '_') && forall|i: int|
            0 <= i < s.len() ==> ('a' <= #[trigger] s[i] <= 'z' || 'A' <= s[i] <= 'Z' || '0' <= s[i]
                <= '9' || s[i] == '_' || s[i] == '$' || s[i] == '#' || s[i] == '@'),
{
    if is_plain_identifier(s) {
        assert forall|i: int| 0 <= i < s.len() implies ('a' <= #[trigger] s[i] <= 'z' || 'A' <= s[i]
            <= 'Z' || '0' <= s[i] <= '9' || s[i] == '_' || s[i] == '$' || s[i] == '#' || s[i]
            == '@') by {}
    }
}

/// Dotting names puts them behind each other with a period between each two.
pub proof fn law_dotting_puts_periods_between(first: Seq<char>, others: Seq<Seq<char>>)
    ensures
        dotted(seq![first]) == first,
        others.len() > 0 ==> dotted(seq![first] + others) == first + seq!['.'] + dotted(others),
{
    assert((seq![first] + others).drop_first() =~= others);
}

/// The names `parts` written without quotes and without blanks.
spec fn written(parts: Seq<Seq<char>>) -> Seq<WrittenName> {
    parts.map_values(|part: Seq<char>| bare(Name::Plain(part)))
}

/// `name` without blanks around it.
spec fn bare(name: Name) -> WrittenName {
    WrittenName { before: Seq::empty(), name, after: Seq::empty() }
}

/// Names without blanks spell what the names alone spell.
proof fn lemma_written(parts: Seq<Seq<char>>)
    requires
        are_plain_identifiers(parts),
    ensures
        are_valid(written(parts)),
        spelled(written(parts)) == dotted(parts),
        !has_detached_underscore(written(parts)),
        written(parts).len() == parts.len(),
{
    let names = written(parts);
    assert forall|i: int| 0 <= i < names.len() implies (#[trigger] names[i]).is_valid() by {
        assert(is_plain_identifier(parts[i]));
    }
    let spellings = names.map_values(|name: WrittenName| name.spelling());
    assert forall|i: int| 0 <= i < spellings.len() implies #[trigger] spellings[i] == parts[i] by {
        assert(names[i].spelling() =~= parts[i]);
    }
    assert(spellings =~= parts);
}

/// A path of plain identifiers is read as `plain_reference` says.
pub proof fn law_plain_paths_are_read_plainly(parts: Seq<Seq<char>>, reference: Seq<Seq<char>>)
    requires
        are_plain_identifiers(parts),
        is_reading(dotted(parts), reference),
    ensures
        reference == plain_reference(parts),
{
    lemma_written(parts);
    let names = written(parts);
    assert(spelled(names) == dotted(parts));
    if parts.len() <= 3 {
        let meanings = names.map_values(|name: WrittenName| name.name.meaning());
        assert(reference == meanings);
        assert(meanings =~= plain_reference(parts));
    }
}

/// Up to three plain names are each read as they stand in lower case, in their
/// places: none is left out, added or cut. More names than three are no
/// qualified name, and the path is a table's name as it stands.
pub proof fn law_every_plain_name_is_kept(parts: Seq<Seq<char>>)
    ensures
        parts.len() <= 3 ==> plain_reference(parts).len() == parts.len(),
        parts.len() <= 3 ==> forall|i: int|
            0 <= i < parts.len() ==> #[trigger] plain_reference(parts)[i] == lowercase(parts[i]),
        parts.len() > 3 ==> plain_reference(parts) == seq![dotted(parts)],
{
}

/// A path of one plain identifier names the table of that name.
pub proof fn law_table_alone(table: Seq<char>, reference: Seq<Seq<char>>)
    requires
        is_plain_identifier(table),
        is_reading(table, reference),
    ensures
        reference == seq![lowercase(table)],
        reference[0].len() == table.len(),
{
    let parts = seq![table];
    assert(dotted(parts) =~= table);
    law_plain_paths_are_read_plainly(parts, reference);
    assert(reference =~= seq![lowercase(table)]);
}

/// A path of two plain identifiers names a table of a schema.
pub proof fn law_table_of_schema(
    schema: Seq<char>,
    table: Seq<char>,
    reference: Seq<Seq<char>>,
)
    requires
        is_plain_identifier(schema),
        is_plain_identifier(table),
        is_reading(schema + seq!['.'] + table, reference),
    ensures
        reference == seq![lowercase(schema), lowercase(table)],
{
    let parts = seq![schema, table];
    assert(parts =~= seq![schema] + seq![table]);
    law_dotting_puts_periods_between(schema, seq![table]);
    law_dotting_puts_periods_between(table, seq![]);
    assert(dotted(parts) =~= schema + seq!['.'] + table);
    law_plain_paths_are_read_plainly(parts, reference);
    assert(reference =~= seq![lowercase(schema), lowercase(table)]);
}

/// A path of three plain identifiers names a table of a schema of a catalog.
pub proof fn law_table_of_catalog(
    catalog: Seq<char>,
    schema: Seq<char>,
    table: Seq<char>,
    reference: Seq<Seq<char>>,
)
    requires
        is_plain_identifier(catalog),
        is_plain_identifier(schema),
        is_plain_identifier(table),
        is_reading(catalog + seq!['.'] + schema + seq!['.'] + table, reference),
    ensures
        reference == seq![lowercase(catalog), lowercase(schema), lowercase(table)],
{
    let parts = seq![catalog, schema, table];
    lemma_dotted_three(catalog, schema, table);
    law_plain_paths_are_read_plainly(parts, reference);
    assert(reference =~= seq![lowercase(catalog), lowercase(schema), lowercase(table)]);
}

/// The path of three names.
proof fn lemma_dotted_three(a: Seq<char>, b: Seq<char>, c: Seq<char>)
    ensures
        dotted(seq![a, b, c]) == a + seq!['.'] + b + seq!['.'] + c,
{
    assert(seq![a, b, c] =~= seq![a] + seq![b, c]);
    assert(seq![b, c] =~= seq![b] + seq![c]);
    law_dotting_puts_periods_between(a, seq![b, c]);
    law_dotting_puts_periods_between(b, seq![c]);
    law_dotting_puts_periods_between(c, seq![]);
    assert(dotted(seq![a, b, c]) =~= a + seq!['.'] + b + seq!['.'] + c);
}

/// The names that a path of up to three plain identifiers is read as, written as
/// a path again, are that path in lower case.
pub proof fn law_reading_keeps_the_path(parts: Seq<Seq<char>>, reference: Seq<Seq<char>>)
    requires
        are_plain_identifiers(parts),
        parts.len() <= 3,
        is_reading(dotted(parts), reference),
    ensures
        dotted(reference) == lowercase(dotted(parts)),
{
    law_plain_paths_are_read_plainly(parts, reference);
    lemma_dotted_lowercase(parts);
    assert(reference =~= parts.map_values(|part: Seq<char>| lowercase(part)));
}

/// Names in lower case make the path in lower case.
proof fn lemma_dotted_lowercase(parts: Seq<Seq<char>>)
    ensures
        dotted(parts.map_values(|part: Seq<char>| lowercase(part))) == lowercase(dotted(parts)),
    decreases parts.len(),
{
    let lower = parts.map_values(|part: Seq<char>| lowercase(part));
    if parts.len() > 1 {
        lemma_dotted_lowercase(parts.drop_first());
        assert(lower.drop_first() =~= parts.drop_first().map_values(
            |part: Seq<char>| lowercase(part),
        ));
        assert(dotted(lower) == lowercase(parts[0]) + seq!['.'] + dotted(lower.drop_first()));
    }
    assert(dotted(lower) =~= lowercase(dotted(parts)));
}

/// Two paths of up to three plain identifiers that are read as the same table
/// are the same path but for case.
pub proof fn law_another_path_is_another_table(
    a: Seq<Seq<char>>,
    b: Seq<Seq<char>>,
    reference: Seq<Seq<char>>,
)
    requires
        are_plain_identifiers(a) && a.len() <= 3,
        are_plain_identifiers(b) && b.len() <= 3,
        is_reading(dotted(a), reference),
        is_reading(dotted(b), reference),
    ensures
        lowercase(dotted(a)) == lowercase(dotted(b)),
        a.len() == b.len(),
{
    law_reading_keeps_the_path(a, reference);
    law_reading_keeps_the_path(b, reference);
    law_plain_paths_are_read_plainly(a, reference);
    law_plain_paths_are_read_plainly(b, reference);
}

/// A path of more than three plain identifiers is a table's name as it stands.
pub proof fn law_longer_paths_are_one_name(parts: Seq<Seq<char>>, reference: Seq<Seq<char>>)
    requires
        are_plain_identifiers(parts),
        parts.len() > 3,
        is_reading(dotted(parts), reference),
    ensures
        reference == seq![dotted(parts)],
{
    law_plain_paths_are_read_plainly(parts, reference);
}

/// Writing quotes twice changes nothing else, and changes each part of a text
/// for itself.
pub proof fn law_escaping_doubles_quotes_alone(quote: char, a: Seq<char>, b: Seq<char>)
    ensures
        escaped(quote, seq![quote]) == seq![quote, quote],
        !a.contains(quote) ==> escaped(quote, a) == a,
        escaped(quote, a + b) == escaped(quote, a) + escaped(quote, b),
    decreases a.len() + b.len(),
{
    assert(seq![quote].drop_last() =~= Seq::<char>::empty());
    assert(escaped(quote, Seq::<char>::empty()) =~= Seq::<char>::empty());
    assert(escaped(quote, seq![quote]) =~= seq![quote, quote]);
    if !a.contains(quote) {
        lemma_escaped_without_quotes(quote, a);
    }
    if b.len() == 0 {
        assert(a + b =~= a);
        assert(escaped(quote, a + b) =~= escaped(quote, a) + escaped(quote, b));
    } else {
        law_escaping_doubles_quotes_alone(quote, a, b.drop_last());
        assert((a + b).drop_last() =~= a + b.drop_last());
        assert((a + b).last() == b.last());
        assert(escaped(quote, a + b) =~= escaped(quote, a) + escaped(quote, b));
    }
}

/// A text without quotes is escaped as it stands.
proof fn lemma_escaped_without_quotes(quote: char, text: Seq<char>)
    requires
        !text.contains(quote),
    ensures
        escaped(quote, text) == text,
    decreases text.len(),
{
    if text.len() > 0 {
        assert(text.contains(text.last()));
        assert(!text.drop_last().contains(quote)) by {
            if text.drop_last().contains(quote) {
                let i = choose|i: int| 0 <= i < text.len() - 1 && text.drop_last()[i] == quote;
                assert(text[i] == quote);
            }
        }
        lemma_escaped_without_quotes(quote, text.drop_last());
    }
    assert(escaped(quote, text) =~= text);
}

/// What the names of a path are written as: an identifier as it stands, and a
/// text between quotes with the quotes in it doubled, both with blanks around
/// them.
pub proof fn law_names_are_written_out(first: WrittenName, others: Seq<WrittenName>)
    ensures
        first.spelling() == first.before + (match first.name {
            Name::Plain(s) => s,
            Name::Quoted(quote, text) => seq![quote] + escaped(quote, text) + seq![quote],
        }) + first.after,
        first.is_valid() <==> is_blank(first.before) && is_blank(first.after) && (
        match first.name {
            Name::Plain(s) => is_plain_identifier(s),
            Name::Quoted(quote, _) => quote == '"' || quote == '`',
        }),
        spelled(seq![first]) == first.spelling(),
        others.len() > 0 ==> spelled(seq![first] + others) == first.spelling() + seq!['.']
            + spelled(others),
{
    let spelling = |name: WrittenName| name.spelling();
    assert(seq![first].map_values(spelling) =~= seq![first.spelling()]);
    assert((seq![first] + others).map_values(spelling) =~= seq![first.spelling()]
        + others.map_values(spelling));
    law_dotting_puts_periods_between(first.spelling(), others.map_values(spelling));
}

/// Blanks are spaces, tabs and line ends.
pub proof fn law_blanks(s: Seq<char>)
    ensures
        is_blank(s) <==> forall|i: int|
            0 <= i < s.len() ==> (#[trigger] s[i] == ' ' || s[i] == '\t' || s[i] == '\n' || s[i]
                == '\r'),
{
}

/// What is asked of names is asked of each of them, and a detached underscore
/// stands right behind a period that blanks part from the name before it.
pub proof fn law_demands_on_names(parts: Seq<Seq<char>>, names: Seq<WrittenName>)
    ensures
        are_plain_identifiers(parts) <==> parts.len() > 0 && forall|i: int|
            0 <= i < parts.len() ==> is_plain_identifier(#[trigger] parts[i]),
        are_valid(names) <==> forall|i: int|
            0 <= i < names.len() ==> (#[trigger] names[i]).is_valid(),
        has_detached_underscore(names) <==> exists|i: int|
            0 <= i < names.len() - 1 && (#[trigger] names[i]).after.len() > 0 && names[i
                + 1].spelling()[0] == '_',
{
}

/// Up to three names, in quotes or not, with or without blanks around them, are
/// read in their places: one in quotes character for character, another in lower
/// case.
pub proof fn law_names_are_read_in_their_places(
    names: Seq<WrittenName>,
    reference: Seq<Seq<char>>,
)
    requires
        0 < names.len() <= 3,
        are_valid(names),
        !has_detached_underscore(names),
        is_reading(spelled(names), reference),
    ensures
        reference.len() == names.len(),
        forall|i: int|
            0 <= i < names.len() ==> #[trigger] reference[i] == (match names[i].name {
                Name::Plain(s) => lowercase(s),
                Name::Quoted(_, text) => text,
            }),
{
    assert(reference == names.map_values(|name: WrittenName| name.name.meaning()));
}

/// A path of more than three names is a table's name as it stands, quotes and
/// blanks and all, and so is one with an underscore right behind a period that
/// blanks part from the name before it.
pub proof fn law_other_names_are_one_name(names: Seq<WrittenName>, reference: Seq<Seq<char>>)
    requires
        names.len() > 0,
        are_valid(names),
        names.len() > 3 || exists|i: int|
            0 <= i < names.len() - 1 && (#[trigger] names[i]).after.len() > 0 && names[i
                + 1].spelling()[0] == '_',
        is_reading(spelled(names), reference),
    ensures
        reference == seq![spelled(names)],
{
}

/// Blanks around names do not count.
pub proof fn law_blanks_do_not_count(
    names: Seq<WrittenName>,
    spaced: Seq<WrittenName>,
    reference: Seq<Seq<char>>,
    other: Seq<Seq<char>>,
)
    requires
        0 < names.len() <= 3,
        are_valid(names) && !has_detached_underscore(names),
        are_valid(spaced) && !has_detached_underscore(spaced),
        spaced.len() == names.len(),
        forall|i: int| 0 <= i < names.len() ==> #[trigger] spaced[i].name == names[i].name,
        is_reading(spelled(names), reference),
        is_reading(spelled(spaced), other),
    ensures
        reference == other,
{
    law_names_are_read_in_their_places(names, reference);
    law_names_are_read_in_their_places(spaced, other);
    assert forall|i: int| 0 <= i < names.len() implies reference[i] == other[i] by {
        assert(spaced[i].name == names[i].name);
    }
    assert(reference =~= other);
}

/// Every text can be a table's name: in quotes, with the quotes in it doubled,
/// it is read character for character.
pub proof fn law_quoted_text_is_read_back(
    quote: char,
    table: Seq<char>,
    reference: Seq<Seq<char>>,
)
    requires
        quote == '"' || quote == '`',
        is_reading(seq![quote] + escaped(quote, table) + seq![quote], reference),
    ensures
        reference == seq![table],
{
    let names = seq![bare(Name::Quoted(quote, table))];
    law_names_are_written_out(names[0], seq![]);
    assert(names[0].spelling() =~= seq![quote] + escaped(quote, table) + seq![quote]);
    assert(names =~= seq![names[0]]);
    law_names_are_read_in_their_places(names, reference);
    assert(reference =~= seq![table]);
}

/// A table's name in quotes that holds none of them is taken character for
/// character, behind plain names of its catalog and its schema.
pub proof fn law_quoted_table_of_catalog(
    catalog: Seq<char>,
    schema: Seq<char>,
    quote: char,
    table: Seq<char>,
    reference: Seq<Seq<char>>,
)
    requires
        is_plain_identifier(catalog),
        is_plain_identifier(schema),
        quote == '"' || quote == '`',
        !table.contains(quote),
        is_reading(
            catalog + seq!['.'] + schema + seq!['.'] + (seq![quote] + table + seq![quote]),
            reference,
        ),
    ensures
        reference == seq![lowercase(catalog), lowercase(schema), table],
{
    let names = seq![
        bare(Name::Plain(catalog)),
        bare(Name::Plain(schema)),
        bare(Name::Quoted(quote, table)),
    ];
    lemma_escaped_without_quotes(quote, table);
    let spellings = names.map_values(|name: WrittenName| name.spelling());
    assert(names[0].spelling() =~= catalog);
    assert(names[1].spelling() =~= schema);
    assert(names[2].spelling() =~= seq![quote] + table + seq![quote]);
    assert(spellings =~= seq![catalog, schema, seq![quote] + table + seq![quote]]);
    lemma_dotted_three(catalog, schema, seq![quote] + table + seq![quote]);
    assert forall|i: int| 0 <= i < names.len() implies (#[trigger] names[i]).is_valid() by {}
    law_names_are_read_in_their_places(names, reference);
    assert(reference =~= seq![lowercase(catalog), lowercase(schema), table]);
}

/// A path that goes on behind a name with a visible ASCII character that is no
/// period, does not belong to the name and begins no comment is a table's name
/// as it stands.
pub proof fn law_stray_characters_make_one_name(
    names: Seq<WrittenName>,
    rest: Seq<char>,
    reference: Seq<Seq<char>>,
)
    requires
        names.len() > 0,
        are_valid(names),
        rest.len() > 0,
        '!' <= rest[0] <= '~',
        rest[0] != '.',
        rest[0] == '-' ==> rest.len() == 1 || rest[1] != '-',
        rest[0] == '/' ==> rest.len() == 1 || rest[1] != '*',
        names.last().after.len() == 0 ==> match names.last().name {
            Name::Plain(s) => !is_plain_identifier(s.push(rest[0])),
            Name::Quoted(quote, _) => rest[0] != quote,
        },
        is_reading(spelled(names) + rest, reference),
    ensures
        reference == seq![spelled(names) + rest],
{
    assert(names.last().is_valid());
    if names.last().after.len() == 0 {
        if let Name::Plain(s) = names.last().name {
            assert forall|i: int| 0 <= i < s.push(rest[0]).len() && i != s.len() implies
                is_identifier_char(#[trigger] s.push(rest[0])[i]) by {
                assert(s.push(rest[0])[i] == s[i]);
            }
        }
    }
    assert(is_stray(names.last(), rest));
    assert(continued(names, rest) == spelled(names) + rest);
}

/// A path that ends where a name is due, or goes on there with a visible ASCII
/// character that begins neither a name nor a comment, is a table's name as it
/// stands. A name is due at the start and behind a period.
pub proof fn law_missing_names_make_one_name(
    names: Seq<WrittenName>,
    blanks: Seq<char>,
    rest: Seq<char>,
    reference: Seq<Seq<char>>,
)
    requires
        are_valid(names),
        is_blank(blanks),
        rest.len() > 0 ==> {
            &&& '!' <= rest[0] <= '~'
            &&& !('a' <= rest[0] <= 'z') && !('A' <= rest[0] <= 'Z') && rest[0] != '_'
            &&& rest[0] != '"' && rest[0] != '`' && rest[0] != '@' && rest[0] != '#'
            &&& rest[0] == '-' ==> rest.len() == 1 || rest[1] != '-'
            &&& rest[0] == '/' ==> rest.len() == 1 || rest[1] != '*'
        },
    ensures
        is_reading(blanks + rest, reference) ==> reference == seq![blanks + rest],
        names.len() > 0 && is_reading(spelled(names) + seq!['.'] + blanks + rest, reference)
            ==> reference == seq![spelled(names) + seq!['.'] + blanks + rest],
{
    assert(due(Seq::empty(), blanks, rest) == blanks + rest);
    if names.len() > 0 {
        assert(due(names, blanks, rest) == spelled(names) + seq!['.'] + blanks + rest);
    }
}

/// A path whose last name begins with a quote that nothing closes is a table's
/// name as it stands.
pub proof fn law_unclosed_quotes_make_one_name(
    names: Seq<WrittenName>,
    blanks: Seq<char>,
    quote: char,
    text: Seq<char>,
    reference: Seq<Seq<char>>,
)
    requires
        are_valid(names),
        is_blank(blanks),
        quote == '"' || quote == '`',
    ensures
        is_reading(blanks + (seq![quote] + escaped(quote, text)), reference) ==> reference == seq![
            blanks + (seq![quote] + escaped(quote, text)),
        ],
        names.len() > 0 && is_reading(
            spelled(names) + seq!['.'] + blanks + (seq![quote] + escaped(quote, text)),
            reference,
        ) ==> reference == seq![
            spelled(names) + seq!['.'] + blanks + (seq![quote] + escaped(quote, text)),
        ],
{
    let rest = seq![quote] + escaped(quote, text);
    assert(is_unclosed(rest));
    assert(due(Seq::empty(), blanks, rest) == blanks + rest);
    if names.len() > 0 {
        assert(due(names, blanks, rest) == spelled(names) + seq!['.'] + blanks + rest);
    }
}

} // verus!
