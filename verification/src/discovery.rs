use crate::text::{
    free_of, is_blank, join_with, lemma_split_join, lemma_trim_end_is_take,
    lemma_trim_start_is_skip, parse_tokens, split_on, trim,
};
use vstd::prelude::*;

verus! {

/// The candidate values that the text of an available-values file
/// advertises: the text without the blanks at its ends, cut at every single
/// space.
pub open spec fn advertised(available: Seq<char>) -> Seq<Seq<char>> {
    split_on(trim(available), ' ')
}

/// Whether every character of `s` is blank.
pub open spec fn all_blank(s: Seq<char>) -> bool {
    forall|i: int| 0 <= i < s.len() ==> is_blank(#[trigger] s[i])
}

/// Whether `tokens` can be written as a line of space-separated values and
/// read back: there is at least one, none holds a space, and the line neither
/// starts nor ends with a blank.
pub open spec fn well_formed(tokens: Seq<Seq<char>>) -> bool {
    &&& tokens.len() >= 1
    &&& forall|i: int| 0 <= i < tokens.len() ==> free_of(#[trigger] tokens[i], ' ')
    &&& tokens.first().len() >= 1
    &&& !is_blank(tokens.first().first())
    &&& tokens.last().len() >= 1
    &&& !is_blank(tokens.last().last())
}

/// What discovery makes of the texts of the two files, `None` standing for a
/// file that could not be read: nothing unless both were read, else the
/// current value as it stands in its file and the advertised candidates.
pub open spec fn discovered(current: Option<Seq<char>>, available: Option<Seq<char>>) -> Option<
    (Seq<char>, Seq<Seq<char>>),
> {
    match (current, available) {
        (Some(value), Some(content)) => Some((value, advertised(content))),
        _ => None,
    }
}

/// The text of a file that may not have been read.
pub open spec fn text_of(read: Option<String>) -> Option<Seq<char>> {
    match read {
        Some(text) => Some(text@),
        None => None,
    }
}

/// What discovery makes of the two reads: the current value as it was read,
/// and the advertised candidates. Either read may have failed (`None`), and
/// then the setting is not available.
pub fn get_selections(current: Option<String>, available: Option<String>) -> (found: Option<
    (String, Vec<String>),
>)
    ensures
        found is Some <==> current is Some && available is Some,
        match found {
            Some((value, candidates)) => discovered(text_of(current), text_of(available)) == Some(
                (value@, candidates.deep_view()),
            ),
            None => discovered(text_of(current), text_of(available)) is None,
        },
{
    match (current, available) {
        (Some(value), Some(content)) => {
            let candidates = parse_tokens(content.as_str());
            Some((value, candidates))
        },
        _ => None,
    }
}

/// A joined line starts with the first character of its first piece and ends
/// with the last character of its last piece.
proof fn lemma_join_ends(pieces: Seq<Seq<char>>, sep: char)
    requires
        pieces.len() >= 1,
        pieces.first().len() >= 1,
        pieces.last().len() >= 1,
    ensures
        join_with(pieces, sep).len() >= 1,
        join_with(pieces, sep).first() == pieces.first().first(),
        join_with(pieces, sep).last() == pieces.last().last(),
{
    lemma_join_first(pieces, sep);
}

/// A joined line starts as its first piece does.
proof fn lemma_join_first(pieces: Seq<Seq<char>>, sep: char)
    requires
        pieces.len() >= 1,
        pieces.first().len() >= 1,
    ensures
        join_with(pieces, sep).len() >= 1,
        join_with(pieces, sep).first() == pieces.first().first(),
    decreases pieces.len(),
{
    if pieces.len() > 1 {
        let init = pieces.drop_last();
        lemma_join_first(init, sep);
        let front = join_with(init, sep).push(sep);
        assert(front[0] == pieces.first().first());
    }
}

/// Discovery keeps the tokens of a well-formed file: every token, in the
/// order of the file, and as often as the file holds it. Blanks before and
/// behind the line (such as the newline that ends it) change nothing.
pub proof fn law_tokens_kept(tokens: Seq<Seq<char>>, lead: Seq<char>, trail: Seq<char>)
    requires
        well_formed(tokens),
        all_blank(lead),
        all_blank(trail),
    ensures
        advertised(lead + join_with(tokens, ' ') + trail) == tokens,
{
    let line = join_with(tokens, ' ');
    let text = lead + line + trail;
    lemma_join_ends(tokens, ' ');
    assert(text[lead.len() as int] == line.first());
    lemma_trim_start_is_skip(text, lead.len() as int);
    let rest = text.skip(lead.len() as int);
    assert(rest =~= line + trail);
    assert(rest[line.len() - 1] == line.last());
    assert forall|i: int| line.len() <= i < rest.len() implies is_blank(#[trigger] rest[i]) by {
        assert(rest[i] == trail[i - line.len()]);
    }
    lemma_trim_end_is_take(rest, line.len() as int);
    assert(rest.take(line.len() as int) =~= line);
    lemma_split_join(tokens, ' ');
}

} // verus!
