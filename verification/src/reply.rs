//! The comment that is posted back: its exact text, and the proof
//! that it always consists of four lines — title, URL, summary,
//! attribution — when none of those parts spans lines itself.

use vstd::prelude::*;

verus! {

/// The attribution line, naming the service and the triggering user.
pub open spec fn spec_attribution_line(commenter: Seq<char>) -> Seq<char> {
    "This result is generated by flows.network. Triggered by @"@ + commenter
}

/// The full reply: title, URL, summary and attribution, each on its
/// own line.
pub open spec fn spec_reply_text(
    title: Seq<char>,
    url: Seq<char>,
    summary: Seq<char>,
    commenter: Seq<char>,
) -> Seq<char> {
    title + "\n"@ + url + "\n"@ + summary + "\n"@ + spec_attribution_line(commenter)
}

/// Builds the reply to post for a summarized issue.
pub fn reply_text(title: &str, url: &str, summary: &str, commenter: &str) -> (r: String)
    ensures
        r@ == spec_reply_text(title@, url@, summary@, commenter@),
{
    let mut r = title.to_owned();
    r.append("\n");
    r.append(url);
    r.append("\n");
    r.append(summary);
    r.append("\n");
    r.append("This result is generated by flows.network. Triggered by @");
    r.append(commenter);
    assert(r@ =~= spec_reply_text(title@, url@, summary@, commenter@));
    r
}

/// `s` contains no line break.
pub open spec fn no_newline(s: Seq<char>) -> bool {
    forall|i: int| 0 <= i < s.len() ==> #[trigger] s[i] != '\n'
}

/// The lines of `s`: maximal runs of characters between line breaks.
/// The empty text has one (empty) line; every line break ends a line.
pub open spec fn split_lines(s: Seq<char>) -> Seq<Seq<char>>
    decreases s.len(),
{
    if s.len() == 0 {
        seq![Seq::empty()]
    } else if s.last() == '\n' {
        split_lines(s.drop_last()).push(Seq::empty())
    } else {
        let r = split_lines(s.drop_last());
        r.update(r.len() - 1, r.last().push(s.last()))
    }
}

proof fn lemma_split_lines_nonempty(s: Seq<char>)
    ensures
        split_lines(s).len() >= 1,
    decreases s.len(),
{
    if s.len() > 0 {
        lemma_split_lines_nonempty(s.drop_last());
    }
}

proof fn lemma_split_lines_append_no_newline(s: Seq<char>, t: Seq<char>)
    requires
        no_newline(t),
    ensures
        split_lines(s + t) == split_lines(s).update(
            split_lines(s).len() - 1,
            split_lines(s).last() + t,
        ),
    decreases t.len(),
{
    lemma_split_lines_nonempty(s);
    if t.len() == 0 {
        assert(s + t =~= s);
        assert(split_lines(s).last() + t =~= split_lines(s).last());
        assert(split_lines(s).update(split_lines(s).len() - 1, split_lines(s).last() + t)
            =~= split_lines(s));
    } else {
        assert(no_newline(t.drop_last()));
        lemma_split_lines_append_no_newline(s, t.drop_last());
        assert((s + t).drop_last() =~= s + t.drop_last());
        assert((s + t).last() == t.last());
        assert(t.last() != '\n');
        let prev = split_lines(s + t.drop_last());
        assert(split_lines(s + t) == prev.update(prev.len() - 1, prev.last().push(t.last())));
        assert(prev.last() == split_lines(s).last() + t.drop_last());
        assert(prev.last().push(t.last()) =~= split_lines(s).last() + t);
        assert(split_lines(s + t) =~= split_lines(s).update(
            split_lines(s).len() - 1,
            split_lines(s).last() + t,
        ));
    }
}

proof fn lemma_split_lines_newline(s: Seq<char>)
    ensures
        split_lines(s + "\n"@) == split_lines(s).push(Seq::empty()),
{
    reveal_strlit("\n");
    assert((s + "\n"@).len() == s.len() + 1);
    assert((s + "\n"@).last() == '\n');
    assert((s + "\n"@).drop_last() =~= s);
}

/// The reply always has exactly four lines, in order: the issue
/// title, the issue URL, the summary, and the attribution naming the
/// triggering commenter — provided none of those parts contains a
/// line break of its own.
pub proof fn lemma_reply_four_lines(
    title: Seq<char>,
    url: Seq<char>,
    summary: Seq<char>,
    commenter: Seq<char>,
)
    requires
        no_newline(title),
        no_newline(url),
        no_newline(summary),
        no_newline(commenter),
    ensures
        split_lines(spec_reply_text(title, url, summary, commenter)) =~~= seq![
            title,
            url,
            summary,
            spec_attribution_line(commenter),
        ],
{
    let attr = spec_attribution_line(commenter);
    assert(no_newline(attr)) by {
        reveal_strlit("This result is generated by flows.network. Triggered by @");
        let lit = "This result is generated by flows.network. Triggered by @"@;
        assert forall|i: int| 0 <= i < attr.len() implies #[trigger] attr[i] != '\n' by {
            if i < lit.len() {
                assert(attr[i] == lit[i]);
            } else {
                assert(attr[i] == commenter[i - lit.len()]);
            }
        }
    }
    let e: Seq<char> = Seq::empty();
    assert(e + title =~= title);
    lemma_split_lines_append_no_newline(e, title);
    assert(split_lines(e) =~= seq![e]);
    assert(split_lines(title) =~~= seq![title]);
    lemma_split_lines_newline(title);
    let s1 = title + "\n"@;
    assert(split_lines(s1) =~~= seq![title, e]);
    lemma_split_lines_append_no_newline(s1, url);
    assert(e + url =~= url);
    assert(split_lines(s1 + url) =~~= seq![title, url]);
    lemma_split_lines_newline(s1 + url);
    let s2 = s1 + url + "\n"@;
    assert(s2 =~= (s1 + url) + "\n"@);
    assert(split_lines(s2) =~~= seq![title, url, e]);
    lemma_split_lines_append_no_newline(s2, summary);
    assert(e + summary =~= summary);
    assert(split_lines(s2 + summary) =~~= seq![title, url, summary]);
    lemma_split_lines_newline(s2 + summary);
    let s3 = s2 + summary + "\n"@;
    assert(s3 =~= (s2 + summary) + "\n"@);
    assert(split_lines(s3) =~~= seq![title, url, summary, e]);
    lemma_split_lines_append_no_newline(s3, attr);
    assert(e + attr =~= attr);
    assert(split_lines(s3 + attr) =~~= seq![title, url, summary, attr]);
    assert(spec_reply_text(title, url, summary, commenter) =~= s3 + attr);
}

} // verus!
