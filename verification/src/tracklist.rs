//! Turning tracks into lines of text: one track's "artist - title", the
//! lines of a whole queue put back into queue order, decimal numbers.

use std::time::Duration;
use vstd::multiset::Multiset;
use vstd::prelude::*;
use vstd::seq_lib::to_multiset_build;
use vstd::seq_lib::to_multiset_contains;
use vstd::seq_lib::to_multiset_insert;

verus! {

/// What is known of a track once its source has been asked.
pub struct Metadata {
    pub title: Option<String>,
    pub artist: Option<String>,
    pub duration: Option<Duration>,
}

/// The text, or "UNKNOWN" in its place.
pub open spec fn or_unknown(text: Option<String>) -> Seq<char> {
    match text {
        Some(t) => t@,
        None => "UNKNOWN"@,
    }
}

/// A track as it is shown: artist and title between single quotes.
pub open spec fn song_line(artist: Option<String>, title: Option<String>) -> Seq<char> {
    "'"@ + or_unknown(artist) + " - "@ + or_unknown(title) + "'"@
}

/// The line that shows a track with this metadata.
pub fn format_song(meta: &Metadata) -> (line: String)
    ensures
        line@ == song_line(meta.artist, meta.title),
{
    let mut line: String = String::from_str("'");
    match &meta.artist {
        Some(a) => line.append(a.as_str()),
        None => line.append("UNKNOWN"),
    }
    line.append(" - ");
    match &meta.title {
        Some(t) => line.append(t.as_str()),
        None => line.append("UNKNOWN"),
    }
    line.append("'");
    line
}

/// The line of one track together with the track's place in the queue.
pub struct Line {
    pub index: usize,
    pub text: String,
}

/// The lines stand by rising index.
pub open spec fn in_order(lines: Seq<Line>) -> bool {
    forall|i: int, j: int| 0 <= i < j < lines.len() ==> lines[i].index <= lines[j].index
}

/// Every index is below `n` and no two lines share one.
pub open spec fn distinct_below(lines: Seq<Line>, n: nat) -> bool {
    &&& forall|k: int| 0 <= k < lines.len() ==> (#[trigger] lines[k]).index < n
    &&& forall|j: int, k: int|
        0 <= j < k < lines.len() ==> (#[trigger] lines[j]).index != (#[trigger] lines[k]).index
}

/// The lines are those of a whole queue: each place of the queue has its one
/// line among them.
pub open spec fn indexed(lines: Seq<Line>) -> bool {
    distinct_below(lines, lines.len())
}

/// Lines of a whole queue that stand in order stand each at its own index.
pub proof fn lemma_ordered_lines_stand_at_their_index(lines: Seq<Line>)
    requires
        in_order(lines),
        indexed(lines),
    ensures
        forall|i: int| 0 <= i < lines.len() ==> (#[trigger] lines[i]).index == i,
{
    assert forall|i: int| 0 <= i < lines.len() implies (#[trigger] lines[i]).index == i by {
        lemma_index_not_below_place(lines, i);
        lemma_index_not_above_place(lines, i);
    }
}

proof fn lemma_index_not_below_place(lines: Seq<Line>, i: int)
    requires
        in_order(lines),
        indexed(lines),
        0 <= i < lines.len(),
    ensures
        lines[i].index >= i,
    decreases i,
{
    if i > 0 {
        lemma_index_not_below_place(lines, i - 1);
        assert(lines[i - 1].index <= lines[i].index);
        assert(lines[i - 1].index != lines[i].index);
    }
}

proof fn lemma_index_not_above_place(lines: Seq<Line>, i: int)
    requires
        in_order(lines),
        indexed(lines),
        0 <= i < lines.len(),
    ensures
        lines[i].index <= i,
    decreases lines.len() - i,
{
    if i + 1 < lines.len() {
        lemma_index_not_above_place(lines, i + 1);
        assert(lines[i].index <= lines[i + 1].index);
        assert(lines[i].index != lines[i + 1].index);
    } else {
        assert(lines[i].index < lines.len());
    }
}

/// The texts of the lines.
pub open spec fn line_texts(lines: Seq<Line>) -> Seq<String> {
    lines.map_values(|l: Line| l.text)
}

/// Where a line with `index` goes among lines that stand in order: behind
/// every line whose index is not greater.
fn slot(sorted: &Vec<Line>, index: usize) -> (at: usize)
    requires
        in_order(sorted@),
    ensures
        at <= sorted@.len(),
        forall|i: int| 0 <= i < at ==> sorted@[i].index <= index,
        forall|i: int| at <= i < sorted@.len() ==> index < sorted@[i].index,
{
    let mut at: usize = 0;
    while at < sorted.len() && sorted[at].index <= index
        invariant
            at <= sorted@.len(),
            in_order(sorted@),
            forall|i: int| 0 <= i < at ==> sorted@[i].index <= index,
        decreases sorted@.len() - at,
    {
        at = at + 1;
    }
    at
}

/// Puts the lines in the order of their indices. Every line comes out once;
/// which of two lines with one index comes first is left open. The lines of
/// a whole queue come out each at its own index.
pub fn sort_lines(lines: Vec<Line>) -> (sorted: Vec<Line>)
    ensures
        in_order(sorted@),
        sorted@.to_multiset() == lines@.to_multiset(),
        sorted@.len() == lines@.len(),
        indexed(lines@) ==> indexed(sorted@) && forall|i: int|
            0 <= i < sorted@.len() ==> (#[trigger] sorted@[i]).index == i,
{
    let ghost n = lines@.len();
    let mut rest: Vec<Line> = lines;
    let mut sorted: Vec<Line> = Vec::new();
    proof {
        assert(sorted@.to_multiset() =~= Multiset::<Line>::empty()) by {
            broadcast use vstd::seq_lib::group_to_multiset_ensures;

        }
        assert(sorted@.to_multiset().add(rest@.to_multiset()) =~= lines@.to_multiset());
        assert(sorted@ + rest@ =~= lines@);
    }
    while rest.len() > 0
        invariant
            in_order(sorted@),
            sorted@.to_multiset().add(rest@.to_multiset()) == lines@.to_multiset(),
            sorted@.len() + rest@.len() == n,
            n == lines@.len(),
            indexed(lines@) ==> distinct_below(sorted@ + rest@, n),
        decreases rest@.len(),
    {
        let ghost rest_before = rest@;
        let ghost sorted_before = sorted@;
        let item: Line = rest.pop().unwrap();
        let at: usize = slot(&sorted, item.index);
        sorted.insert(at, item);
        proof {
            assert(rest_before =~= rest@.push(item));
            to_multiset_build(rest@, item);
            to_multiset_insert(sorted_before, at as int, item);
            assert(sorted@.to_multiset().add(rest@.to_multiset()) =~= sorted_before.to_multiset().add(
                rest_before.to_multiset(),
            ));
            if indexed(lines@) {
                let old_all = sorted_before + rest_before;
                let new_all = sorted@ + rest@;
                let k = at as int;
                let last = old_all.len() - 1;
                // Where the line at a place of the new row stood in the old one.
                let from = |p: int|
                    if p < k {
                        p
                    } else if p == k {
                        last
                    } else {
                        p - 1
                    };
                assert forall|p: int| 0 <= p < new_all.len() implies 0 <= from(p) < old_all.len()
                    && #[trigger] new_all[p] == old_all[from(p)] by {}
                assert forall|p: int| 0 <= p < new_all.len() implies (#[trigger] new_all[p]).index
                    < n by {
                    assert(new_all[p] == old_all[from(p)]);
                }
                assert forall|p: int, q: int| 0 <= p < q < new_all.len() implies (
                #[trigger] new_all[p]).index != (#[trigger] new_all[q]).index by {
                    assert(new_all[p] == old_all[from(p)]);
                    assert(new_all[q] == old_all[from(q)]);
                    assert(from(p) != from(q));
                    if from(p) < from(q) {
                        assert(old_all[from(p)].index != old_all[from(q)].index);
                    } else {
                        assert(old_all[from(q)].index != old_all[from(p)].index);
                    }
                }
            }
        }
    }
    proof {
        assert(rest@.to_multiset() =~= Multiset::<Line>::empty()) by {
            broadcast use vstd::seq_lib::group_to_multiset_ensures;

        }
        assert(sorted@.to_multiset() =~= sorted@.to_multiset().add(rest@.to_multiset()));
        assert(sorted@ + rest@ =~= sorted@);
        if indexed(lines@) {
            lemma_ordered_lines_stand_at_their_index(sorted@);
        }
    }
    sorted
}

/// The texts of the lines, taken out of them in their order.
pub fn texts_of(lines: Vec<Line>) -> (texts: Vec<String>)
    ensures
        texts@ == line_texts(lines@),
{
    let ghost all = lines@;
    let mut rest: Vec<Line> = lines;
    let mut texts: Vec<String> = Vec::new();
    // Lines are taken from the back, so the texts come out reversed first.
    while rest.len() > 0
        invariant
            rest@.len() <= all.len(),
            rest@ == all.take(rest@.len() as int),
            texts@.len() == all.len() - rest@.len(),
            forall|k: int| 0 <= k < texts@.len() ==> texts@[k] == all[all.len() - 1 - k].text,
        decreases rest@.len(),
    {
        let item: Line = rest.pop().unwrap();
        texts.push(item.text);
    }
    let n: usize = texts.len();
    let mut out: Vec<String> = Vec::new();
    while texts.len() > 0
        invariant
            n == all.len(),
            texts@.len() <= n,
            out@.len() == n - texts@.len(),
            forall|k: int| 0 <= k < texts@.len() ==> texts@[k] == all[all.len() - 1 - k].text,
            forall|k: int| 0 <= k < out@.len() ==> out@[k] == all[k].text,
        decreases texts@.len(),
    {
        let text: String = texts.pop().unwrap();
        out.push(text);
    }
    assert(out@ =~= line_texts(all));
    out
}

/// The lines of a queue in queue order, from the lines in the order in which
/// they were finished: the texts of the lines, sorted by index. Of the lines
/// of a whole queue each text comes out at the place of its track.
pub fn get_tracklist(results: Vec<Line>) -> (list: Vec<String>)
    ensures
        list@.len() == results@.len(),
        exists|sorted: Seq<Line>|
            in_order(sorted) && sorted.to_multiset() == results@.to_multiset() && list@
                == #[trigger] line_texts(sorted),
        indexed(results@) ==> forall|k: int|
            0 <= k < results@.len() ==> list@[(#[trigger] results@[k]).index as int]
                == results@[k].text,
{
    let sorted: Vec<Line> = sort_lines(results);
    let ghost witness = sorted@;
    let list: Vec<String> = texts_of(sorted);
    proof {
        assert(list@ == line_texts(witness));
        if indexed(results@) {
            assert forall|k: int| 0 <= k < results@.len() implies list@[(
            #[trigger] results@[k]).index as int] == results@[k].text by {
                let line = results@[k];
                to_multiset_contains(results@, line);
                to_multiset_contains(witness, line);
                assert(results@.contains(line));
                assert(witness.contains(line));
                let j = choose|j: int| 0 <= j < witness.len() && witness[j] == line;
                assert(witness[j].index == j);
            }
        }
    }
    list
}

/// The character of a decimal digit.
pub open spec fn digit_char(d: nat) -> char
    recommends
        d < 10,
{
    if d == 0 {
        '0'
    } else if d == 1 {
        '1'
    } else if d == 2 {
        '2'
    } else if d == 3 {
        '3'
    } else if d == 4 {
        '4'
    } else if d == 5 {
        '5'
    } else if d == 6 {
        '6'
    } else if d == 7 {
        '7'
    } else if d == 8 {
        '8'
    } else {
        '9'
    }
}

/// A number written in decimal, without leading zeros.
pub open spec fn decimal(n: nat) -> Seq<char>
    decreases n,
{
    if n < 10 {
        seq![digit_char(n)]
    } else {
        decimal(n / 10).push(digit_char(n % 10))
    }
}

/// The text of one decimal digit.
fn digit_text(d: u64) -> (t: &'static str)
    requires
        d < 10,
    ensures
        t@ == seq![digit_char(d as nat)],
{
    proof {
        reveal_strlit("0");
        reveal_strlit("1");
        reveal_strlit("2");
        reveal_strlit("3");
        reveal_strlit("4");
        reveal_strlit("5");
        reveal_strlit("6");
        reveal_strlit("7");
        reveal_strlit("8");
        reveal_strlit("9");
    }
    let t: &'static str = if d == 0 {
        "0"
    } else if d == 1 {
        "1"
    } else if d == 2 {
        "2"
    } else if d == 3 {
        "3"
    } else if d == 4 {
        "4"
    } else if d == 5 {
        "5"
    } else if d == 6 {
        "6"
    } else if d == 7 {
        "7"
    } else if d == 8 {
        "8"
    } else {
        "9"
    };
    assert(t@ =~= seq![digit_char(d as nat)]);
    t
}

/// Writes `n` in decimal.
pub fn decimal_text(n: u64) -> (text: String)
    ensures
        text@ == decimal(n as nat),
    decreases n,
{
    if n < 10 {
        String::from_str(digit_text(n))
    } else {
        let mut text: String = decimal_text(n / 10);
        text.append(digit_text(n % 10));
        assert(text@ =~= decimal(n as nat));
        text
    }
}

/// The line of the track at `index` in a listing: an arrow in front of the
/// current track, the track's number, counted from one, in front of any
/// other.
pub open spec fn listing_line(index: nat, pos: nat, text: Seq<char>) -> Seq<char> {
    if index == pos {
        "-> "@ + text + "\n"@
    } else {
        decimal(index + 1) + ": "@ + text + "\n"@
    }
}

/// The lines of the first `n` tracks of a listing, one after the other.
pub open spec fn listing_lines(lines: Seq<String>, pos: nat, n: nat) -> Seq<char>
    recommends
        n <= lines.len(),
    decreases n,
{
    if n == 0 {
        Seq::empty()
    } else {
        listing_lines(lines, pos, (n - 1) as nat) + listing_line(
            (n - 1) as nat,
            pos,
            lines[n - 1]@,
        )
    }
}

/// The whole listing of a queue: a heading, the lines of the tracks inside a
/// code block, the current track marked.
pub open spec fn listing(lines: Seq<String>, pos: nat) -> Seq<char> {
    "Queue\n```\n"@ + listing_lines(lines, pos, lines.len()) + "```"@
}

/// Writes the listing of a queue from the lines of its tracks and its
/// position.
pub fn render_queue(lines: &Vec<String>, pos: usize) -> (text: String)
    ensures
        text@ == listing(lines@, pos as nat),
{
    let mut text: String = String::from_str("Queue\n```\n");
    let mut i: usize = 0;
    while i < lines.len()
        invariant
            i <= lines@.len(),
            text@ == "Queue\n```\n"@ + listing_lines(lines@, pos as nat, i as nat),
        decreases lines@.len() - i,
    {
        let ghost before = text@;
        if pos == i {
            text.append("-> ");
            text.append(lines[i].as_str());
            text.append("\n");
        } else {
            let number: String = decimal_text((i + 1) as u64);
            text.append(number.as_str());
            text.append(": ");
            text.append(lines[i].as_str());
            text.append("\n");
        }
        assert(text@ =~= before + listing_line(i as nat, pos as nat, lines@[i as int]@));
        i = i + 1;
        assert(text@ =~= "Queue\n```\n"@ + listing_lines(lines@, pos as nat, i as nat));
    }
    text.append("```");
    text
}

} // verus!
