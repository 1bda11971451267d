use vstd::prelude::*;
use crate::document::views;

verus! {

/// Every tag that records reading progress starts with this text.
pub open spec fn progress_prefix() -> Seq<char> {
    "progress:"@
}

/// A tag records reading progress when it starts with `progress:`.
pub open spec fn is_progress_tag(t: Seq<char>) -> bool {
    progress_prefix().is_prefix_of(t)
}

/// The tags other than the progress tags, in their order.
pub open spec fn kept_tags(tags: Seq<Seq<char>>) -> Seq<Seq<char>> {
    tags.filter(|t: Seq<char>| !is_progress_tag(t))
}

/// What follows `progress:` in a progress tag; nothing for another tag.
pub open spec fn progress_value_of(t: Seq<char>) -> Option<Seq<char>> {
    if is_progress_tag(t) {
        Some(t.skip(progress_prefix().len() as int))
    } else {
        None
    }
}

/// The texts after `progress:` of the progress tags, in their order.
pub open spec fn progress_values_of(tags: Seq<Seq<char>>) -> Seq<Seq<char>> {
    tags.filter_map(|t: Seq<char>| progress_value_of(t))
}

/// The character of a decimal digit.
pub open spec fn digit_char(d: nat) -> char {
    ('0' as u32 + d) as char
}

/// The decimal digits of a natural number, most significant first.
pub open spec fn digits(n: nat) -> Seq<char>
    decreases n,
{
    if n < 10 {
        seq![digit_char(n)]
    } else {
        digits(n / 10).push(digit_char(n % 10))
    }
}

/// An integer written in decimal, with a leading minus sign when negative.
pub open spec fn decimal(n: int) -> Seq<char> {
    if n < 0 {
        seq!['-'] + digits((-n) as nat)
    } else {
        digits(n as nat)
    }
}

/// The tag that records a progress of `percent`.
pub open spec fn progress_tag_of(percent: int) -> Seq<char> {
    progress_prefix() + decimal(percent)
}

/// The tags with every progress tag dropped and the tag for `percent` added last.
pub open spec fn replaced_tags(tags: Seq<Seq<char>>, percent: int) -> Seq<Seq<char>> {
    kept_tags(tags).push(progress_tag_of(percent))
}

/// Whether `t` starts with `progress:`.
pub fn is_progress_tag_text(t: &str) -> (r: bool)
    ensures
        r == is_progress_tag(t@),
{
    let p = "progress:";
    proof {
        reveal_strlit("progress:");
    }
    let n = t.unicode_len();
    if n < 9 {
        return false;
    }
    for i in 0..9
        invariant
            n == t@.len(),
            9 <= n,
            p@ == progress_prefix(),
            p@.len() == 9,
            forall|j: int| 0 <= j < i ==> t@[j] == p@[j],
    {
        if t.get_char(i) != p.get_char(i) {
            return false;
        }
    }
    assert(p@ =~= t@.subrange(0, 9));
    true
}

/// The texts after `progress:` of the progress tags among `tags`, in their order.
pub fn progress_values(tags: &Vec<String>) -> (r: Vec<String>)
    ensures
        views(r@) == progress_values_of(views(tags@)),
{
    let mut out: Vec<String> = Vec::new();
    let n = tags.len();
    for i in 0..n
        invariant
            n == tags@.len(),
            views(out@) == progress_values_of(views(tags@).take(i as int)),
    {
        let t = tags[i].as_str();
        let ghost before = views(tags@).take(i as int);
        assert(views(tags@).take(i + 1).drop_last() == before);
        if is_progress_tag_text(t) {
            proof {
                reveal_strlit("progress:");
            }
            let len = t.unicode_len();
            let rest = t.substring_char(9, len);
            out.push(rest.to_owned());
            assert(views(out@) == views(out@).drop_last().push(rest@));
        }
    }
    assert(views(tags@).take(n as int) == views(tags@));
    out
}

/// The character of a decimal digit, as text.
fn digit_text(d: u64) -> (r: &'static str)
    requires
        d < 10,
    ensures
        r@ == seq![digit_char(d as nat)],
{
    proof {
        reveal_strlit("0");
        reveal_strlit("1");
        reveal_strlit("2");
        reveal_strlit("3");
        reveal_strlit("4");
        reveal_strlit("5");
        reveal_strlit("6");
        reveal_strlit("7");
        reveal_strlit("8");
        reveal_strlit("9");
    }
    match d {
        0 => "0",
        1 => "1",
        2 => "2",
        3 => "3",
        4 => "4",
        5 => "5",
        6 => "6",
        7 => "7",
        8 => "8",
        _ => "9",
    }
}

/// `n` written in decimal.
pub fn decimal_text(n: i32) -> (r: String)
    ensures
        r@ == decimal(n as int),
{
    let mut res = String::new();
    let mut m: u64 = if n < 0 {
        proof {
            reveal_strlit("-");
        }
        res.append("-");
        (0i64 - (n as i64)) as u64
    } else {
        n as u64
    };
    let ghost start = m as nat;
    let ghost lead = res@;
    let mut low: Vec<u64> = Vec::new();
    let ghost mut suffix: Seq<char> = Seq::empty();
    while m >= 10
        invariant
            digits(start) == digits(m as nat) + suffix,
            suffix.len() == low@.len(),
            forall|i: int| 0 <= i < low@.len() ==> low@[i] < 10,
            forall|i: int|
                0 <= i < low@.len() ==> suffix[i] == digit_char(low@[low@.len() - 1 - i] as nat),
        decreases m,
    {
        let d = m % 10;
        proof {
            assert(digits(m as nat) == digits((m / 10) as nat).push(digit_char(d as nat)));
            assert(digits(m as nat) + suffix == digits((m / 10) as nat) + (seq![digit_char(d as nat)]
                + suffix));
            suffix = seq![digit_char(d as nat)] + suffix;
        }
        low.push(d);
        m = m / 10;
    }
    assert(digits(m as nat) == seq![digit_char(m as nat)]);
    res.append(digit_text(m));
    let ghost head = res@;
    let mut k = low.len();
    while k > 0
        invariant
            k <= low@.len(),
            suffix.len() == low@.len(),
            forall|i: int| 0 <= i < low@.len() ==> low@[i] < 10,
            forall|i: int|
                0 <= i < low@.len() ==> suffix[i] == digit_char(low@[low@.len() - 1 - i] as nat),
            res@ == head + suffix.take(low@.len() - k),
        decreases k,
    {
        k = k - 1;
        let ghost j = low@.len() - 1 - k;
        res.append(digit_text(low[k]));
        assert(suffix.take(j + 1) == suffix.take(j).push(suffix[j]));
    }
    assert(suffix.take(low@.len() as int) == suffix);
    res
}

/// The tag that records a progress of `percent`, such as `progress:100`.
pub fn progress_tag(percent: i32) -> (r: String)
    ensures
        r@ == progress_tag_of(percent as int),
{
    let mut t = String::from_str("progress:");
    proof {
        reveal_strlit("progress:");
    }
    t.append(decimal_text(percent).as_str());
    t
}


/// Copies of the tags other than the progress tags, in their order.
pub fn without_progress_tags(tags: &Vec<String>) -> (r: Vec<String>)
    ensures
        views(r@) == kept_tags(views(tags@)),
{
    let mut out: Vec<String> = Vec::new();
    let n = tags.len();
    for i in 0..n
        invariant
            n == tags@.len(),
            views(out@) == kept_tags(views(tags@).take(i as int)),
    {
        let ghost before = views(tags@).take(i as int);
        assert(views(tags@).take(i + 1) == before.push(tags@[i as int]@));
        proof {
            lemma_kept_tags_push(before, tags@[i as int]@);
        }
        if !is_progress_tag_text(tags[i].as_str()) {
            out.push(tags[i].clone());
            assert(views(out@) == views(out@).drop_last().push(tags@[i as int]@));
        }
    }
    assert(views(tags@).take(n as int) == views(tags@));
    out
}

/// The tags with every progress tag replaced by the single tag for `percent`,
/// placed last.
pub fn with_progress_tag(tags: &Vec<String>, percent: i32) -> (r: Vec<String>)
    ensures
        views(r@) == replaced_tags(views(tags@), percent as int),
{
    let mut out = without_progress_tags(tags);
    let t = progress_tag(percent);
    out.push(t);
    assert(views(out@) == views(out@).drop_last().push(t@));
    out
}

/// Keeping the non-progress tags of a list with one more tag at its end.
pub proof fn lemma_kept_tags_push(tags: Seq<Seq<char>>, t: Seq<char>)
    ensures
        kept_tags(tags.push(t)) == if is_progress_tag(t) {
            kept_tags(tags)
        } else {
            kept_tags(tags).push(t)
        },
{
    reveal(Seq::filter);
    assert(tags.push(t).drop_last() == tags);
}

/// A list of kept tags holds no progress tag.
pub proof fn lemma_kept_tags_have_no_progress(tags: Seq<Seq<char>>)
    ensures
        progress_values_of(kept_tags(tags)) == Seq::<Seq<char>>::empty(),
        kept_tags(kept_tags(tags)) == kept_tags(tags),
    decreases tags.len(),
{
    if tags.len() > 0 {
        let rest = tags.drop_last();
        assert(tags == rest.push(tags.last()));
        lemma_kept_tags_have_no_progress(rest);
        lemma_kept_tags_push(rest, tags.last());
        if !is_progress_tag(tags.last()) {
            lemma_kept_tags_push(kept_tags(rest), tags.last());
            assert(kept_tags(rest).push(tags.last()).drop_last() == kept_tags(rest));
        }
    } else {
        reveal(Seq::filter);
    }
}

/// A progress tag starts with `progress:` and carries the decimal text of its percent.
pub proof fn lemma_progress_tag_value(percent: int)
    ensures
        is_progress_tag(progress_tag_of(percent)),
        progress_value_of(progress_tag_of(percent)) == Some(decimal(percent)),
{
    reveal_strlit("progress:");
    let t = progress_tag_of(percent);
    assert(t.subrange(0, 9) == progress_prefix());
    assert(t.skip(9) == decimal(percent));
}

/// Writing a progress tag and reading the progress tags back gives exactly the
/// value written: after the replacement the list holds one progress tag, and
/// its text after `progress:` is `percent` in decimal.
pub proof fn law_progress_tag_read_back(tags: Seq<Seq<char>>, percent: int)
    ensures
        progress_values_of(replaced_tags(tags, percent)) == seq![decimal(percent)],
{
    lemma_kept_tags_have_no_progress(tags);
    lemma_progress_tag_value(percent);
    let k = kept_tags(tags);
    assert(k.push(progress_tag_of(percent)).drop_last() == k);
}

/// Replacing the progress tag keeps every other tag, in its order.
pub proof fn law_progress_tag_keeps_other_tags(tags: Seq<Seq<char>>, percent: int)
    ensures
        kept_tags(replaced_tags(tags, percent)) == kept_tags(tags),
{
    lemma_kept_tags_have_no_progress(tags);
    lemma_progress_tag_value(percent);
    lemma_kept_tags_push(kept_tags(tags), progress_tag_of(percent));
}

/// The last progress written wins: replacing twice is replacing once with the
/// second percent.
pub proof fn law_progress_tag_last_write_wins(tags: Seq<Seq<char>>, first: int, second: int)
    ensures
        replaced_tags(replaced_tags(tags, first), second) == replaced_tags(tags, second),
{
    law_progress_tag_keeps_other_tags(tags, first);
}

} // verus!
