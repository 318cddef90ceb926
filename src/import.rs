//! Readers for the Yomu and ReadEra export formats.

use vstd::prelude::*;

use crate::card::{CardError, FlashCard};
use crate::text::{
    append_chars, chars_of, join_lines, join_lines_chars, lemma_split_on_nonempty, lines_chars, lines_of,
    pieces_view, split_chars, split_on, string_of, strip_leading, strip_leading_chars, trim,
    trim_chars, without, without_chars,
};

verus! {

/// The pieces of a Yomu heading line split at each `(`, once every `#` is gone.
pub open spec fn yomu_heading_parts(line: Seq<char>) -> Seq<Seq<char>> {
    split_on(without(line, '#'), seq!['('])
}

/// The book title of a Yomu heading line: the text before the first `(`.
pub open spec fn yomu_title(line: Seq<char>) -> Seq<char> {
    trim(yomu_heading_parts(line)[0])
}

/// The author of a Yomu heading line: the text after the last `(`, without `)`;
/// empty when there is no `(`.
pub open spec fn yomu_author(line: Seq<char>) -> Seq<char> {
    let p = yomu_heading_parts(line);
    if p.len() > 1 {
        trim(without(p.last(), ')'))
    } else {
        Seq::empty()
    }
}

/// Reads `# Title (Author)`, the first line of a Yomu export, into its title and
/// author.
pub fn extract_yomu_title_author(line: &str) -> (r: (String, String))
    ensures
        r.0@ == yomu_title(line@),
        r.1@ == yomu_author(line@),
{
    let chars = chars_of(line);
    let plain = without_chars(&chars, '#');
    let open: Vec<char> = vec!['('];
    assert(open@ =~= seq!['(']);
    let parts = split_chars(&plain, &open);
    proof {
        lemma_split_on_nonempty(plain@, open@);
    }
    let title = string_of(&trim_chars(&parts[0]));
    let author = if parts.len() > 1 {
        string_of(&trim_chars(&without_chars(&parts[parts.len() - 1], ')')))
    } else {
        String::new()
    };
    (title, author)
}

/// The quoted lines of a Yomu entry (those that start with `>`), each without its
/// leading `>` marks.
pub open spec fn quoted_lines(lines: Seq<Seq<char>>) -> Seq<Seq<char>>
    decreases lines.len(),
{
    if lines.len() == 0 {
        Seq::empty()
    } else {
        let front = quoted_lines(lines.drop_last());
        let l = lines.last();
        if l.len() > 0 && l[0] == '>' {
            front.push(strip_leading(l, '>'))
        } else {
            front
        }
    }
}

/// The body of a card made from one Yomu entry: its quoted lines, joined.
pub open spec fn yomu_body(entry: Seq<char>) -> Seq<char> {
    join_lines(quoted_lines(lines_of(entry)))
}

fn yomu_entry_body(entry: &Vec<char>) -> (r: Vec<char>)
    ensures
        r@ == yomu_body(entry@),
{
    let lines = lines_chars(entry);
    let mut quoted: Vec<Vec<char>> = Vec::new();
    let mut i: usize = 0;
    while i < lines.len()
        invariant
            i <= lines.len(),
            pieces_view(quoted@) == quoted_lines(pieces_view(lines@).subrange(0, i as int)),
        decreases lines.len() - i,
    {
        let ghost before = pieces_view(lines@).subrange(0, i as int);
        let ghost acc = pieces_view(quoted@);
        let line = &lines[i];
        proof {
            assert(pieces_view(lines@).subrange(0, i + 1).drop_last() =~= before);
        }
        if line.len() > 0 && line[0] == '>' {
            let q = strip_leading_chars(line, '>');
            let ghost qv = q@;
            quoted.push(q);
            assert(pieces_view(quoted@) =~= acc.push(qv));
        }
        i = i + 1;
    }
    assert(pieces_view(lines@).subrange(0, lines.len() as int) =~= pieces_view(lines@));
    join_lines_chars(&quoted)
}

/// Reads the entries of a Yomu export, separated by `---`, into cards under
/// `title`; an entry's body is its quoted lines.
pub fn extract_yomu_flashcards(title: &str, file_contents: String) -> (r: Result<
    Vec<FlashCard>,
    CardError,
>)
    ensures
        r is Ok,
        r->Ok_0.len() == split_on(file_contents@, seq!['-', '-', '-']).len(),
        forall|k: int|
            0 <= k < r->Ok_0.len() ==> {
                &&& (#[trigger] r->Ok_0[k]).id == 0
                &&& r->Ok_0[k].title@ == title@
                &&& r->Ok_0[k].body@ == yomu_body(split_on(file_contents@, seq!['-', '-', '-'])[k])
            },
{
    let contents = chars_of(file_contents.as_str());
    let sep: Vec<char> = vec!['-', '-', '-'];
    assert(sep@ =~= seq!['-', '-', '-']);
    let parts = split_chars(&contents, &sep);
    let mut cards: Vec<FlashCard> = Vec::new();
    let mut i: usize = 0;
    while i < parts.len()
        invariant
            i <= parts.len(),
            cards.len() == i,
            pieces_view(parts@) == split_on(file_contents@, seq!['-', '-', '-']),
            forall|k: int|
                0 <= k < i ==> {
                    &&& (#[trigger] cards@[k]).id == 0
                    &&& cards@[k].title@ == title@
                    &&& cards@[k].body@ == yomu_body(parts@[k]@)
                },
        decreases parts.len() - i,
    {
        let body = string_of(&yomu_entry_body(&parts[i]));
        cards.push(FlashCard { id: 0, title: title.to_owned(), body });
        i = i + 1;
    }
    Ok(cards)
}

/// The separator between ReadEra entries.
pub open spec fn era_separator() -> Seq<char> {
    seq!['*', '*', '*', '*', '*']
}

/// Each line followed by a line break.
pub open spec fn terminated_lines(lines: Seq<Seq<char>>) -> Seq<char>
    decreases lines.len(),
{
    if lines.len() == 0 {
        Seq::empty()
    } else {
        terminated_lines(lines.drop_last()) + lines.last().push('\n')
    }
}

/// The lines of the first ReadEra entry: book title, author, then the first note.
pub open spec fn era_head(contents: Seq<char>) -> Seq<Seq<char>> {
    split_on(split_on(contents, era_separator())[0], seq!['\n'])
}

/// The title given to every card of a ReadEra export: book title, a line break,
/// author.
pub open spec fn era_card_title(contents: Seq<char>) -> Seq<char> {
    let head = era_head(contents);
    let author = if head.len() > 1 {
        head[1]
    } else {
        Seq::empty()
    };
    head[0].push('\n') + author
}

/// The body of the `k`th card of a ReadEra export: for the first, the lines after
/// title and author, each with its line break; for the others, the entry as it
/// stands.
pub open spec fn era_card_body(contents: Seq<char>, k: int) -> Seq<char> {
    let head = era_head(contents);
    if k == 0 {
        if head.len() > 2 {
            terminated_lines(head.subrange(2, head.len() as int))
        } else {
            Seq::empty()
        }
    } else {
        split_on(contents, era_separator())[k]
    }
}

/// Reads a ReadEra export: entries separated by `*****`, the first opening with
/// the book title and the author on lines of their own.
pub fn extract_flash_cards(file_contents: String) -> (r: Result<Vec<FlashCard>, CardError>)
    ensures
        r is Ok,
        r->Ok_0.len() == split_on(file_contents@, era_separator()).len(),
        forall|k: int|
            0 <= k < r->Ok_0.len() ==> {
                &&& (#[trigger] r->Ok_0[k]).id == 0
                &&& r->Ok_0[k].title@ == era_card_title(file_contents@)
                &&& r->Ok_0[k].body@ == era_card_body(file_contents@, k)
            },
{
    let contents = chars_of(file_contents.as_str());
    let sep: Vec<char> = vec!['*', '*', '*', '*', '*'];
    assert(sep@ =~= era_separator());
    let parts = split_chars(&contents, &sep);
    proof {
        lemma_split_on_nonempty(contents@, sep@);
    }
    let newline: Vec<char> = vec!['\n'];
    assert(newline@ =~= seq!['\n']);
    let head = split_chars(&parts[0], &newline);
    proof {
        lemma_split_on_nonempty(parts@[0]@, newline@);
    }
    let mut title: Vec<char> = Vec::new();
    append_chars(&mut title, &head[0]);
    title.push('\n');
    if head.len() > 1 {
        append_chars(&mut title, &head[1]);
    }
    assert(title@ =~= era_card_title(file_contents@));
    let mut first_body: Vec<char> = Vec::new();
    let mut j: usize = 2;
    while j < head.len()
        invariant
            2 <= j,
            pieces_view(head@) == era_head(file_contents@),
            j <= head.len() || head.len() <= 2,
            head.len() > 2 ==> first_body@ == terminated_lines(
                pieces_view(head@).subrange(2, j as int),
            ),
            head.len() <= 2 ==> first_body@ == Seq::<char>::empty(),
        decreases head.len() - j,
    {
        let ghost before = pieces_view(head@).subrange(2, j as int);
        append_chars(&mut first_body, &head[j]);
        first_body.push('\n');
        j = j + 1;
        proof {
            let now = pieces_view(head@).subrange(2, j as int);
            assert(now.drop_last() =~= before);
            assert(first_body@ =~= terminated_lines(before) + now.last().push('\n'));
        }
    }
    proof {
        if head.len() > 2 {
            assert(pieces_view(head@).subrange(2, head.len() as int) =~= pieces_view(head@).subrange(
                2,
                j as int,
            ));
        }
    }
    let mut cards: Vec<FlashCard> = Vec::new();
    let mut i: usize = 0;
    while i < parts.len()
        invariant
            i <= parts.len(),
            cards.len() == i,
            pieces_view(parts@) == split_on(file_contents@, era_separator()),
            title@ == era_card_title(file_contents@),
            first_body@ == era_card_body(file_contents@, 0),
            forall|k: int|
                0 <= k < i ==> {
                    &&& (#[trigger] cards@[k]).id == 0
                    &&& cards@[k].title@ == era_card_title(file_contents@)
                    &&& cards@[k].body@ == era_card_body(file_contents@, k)
                },
        decreases parts.len() - i,
    {
        let body = if i == 0 {
            string_of(&first_body)
        } else {
            string_of(&parts[i])
        };
        cards.push(FlashCard { id: 0, title: string_of(&title), body });
        i = i + 1;
    }
    Ok(cards)
}

} // verus!
