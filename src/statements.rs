//! Attachments of fetched messages and the choice of bank statements among them.
use vstd::prelude::*;
use vstd::string::StrSliceExecFns;

verus! {

/// One attachment of a message: MIME type, file name if it has one, content.
#[derive(Clone, Debug, PartialEq, Eq)]
pub struct Attachment {
    pub mime: String,
    pub filename: Option<String>,
    pub body: Vec<u8>,
}

/// The name that every statement file starts with.
pub open spec fn statement_prefix() -> Seq<char> {
    "mBiznes"@
}

/// A statement is an attachment whose file name starts with the statement
/// prefix; an attachment without a name is none.
pub open spec fn is_statement(a: Attachment) -> bool {
    match a.filename {
        Some(name) => statement_prefix().is_prefix_of(name@),
        None => false,
    }
}

/// The statements among `attachments`, in their order.
pub open spec fn statements_of(attachments: Seq<Attachment>) -> Seq<Attachment> {
    attachments.filter(|a: Attachment| is_statement(a))
}

/// The attachments of all `messages`, message after message.
pub open spec fn all_attachments(messages: Seq<Vec<Attachment>>) -> Seq<Attachment> {
    messages.map_values(|m: Vec<Attachment>| m@).flatten()
}

/// Whether `name` starts with `prefix`.
fn starts_with(name: &str, prefix: &str) -> (r: bool)
    ensures
        r == prefix@.is_prefix_of(name@),
{
    let n = name.unicode_len();
    let p = prefix.unicode_len();
    if p > n {
        return false;
    }
    let mut i: usize = 0;
    while i < p
        invariant
            p == prefix@.len(),
            n == name@.len(),
            p <= n,
            i <= p,
            prefix@.subrange(0, i as int) == name@.subrange(0, i as int),
        decreases p - i,
    {
        if prefix.get_char(i) != name.get_char(i) {
            assert(prefix@[i as int] != name@.subrange(0, p as int)[i as int]);
            return false;
        }
        assert(prefix@.subrange(0, i + 1) =~= prefix@.subrange(0, i as int).push(prefix@[i as int]));
        assert(name@.subrange(0, i + 1) =~= name@.subrange(0, i as int).push(name@[i as int]));
        i = i + 1;
    }
    assert(prefix@ =~= prefix@.subrange(0, p as int));
    true
}

/// Whether `a` is a statement.
pub fn is_statement_file(a: &Attachment) -> (r: bool)
    ensures
        r == is_statement(*a),
{
    match &a.filename {
        Some(name) => starts_with(name.as_str(), "mBiznes"),
        None => false,
    }
}

/// Keeps the statements of `attachments`, in their order.
pub fn select_statements(attachments: Vec<Attachment>) -> (r: Vec<Attachment>)
    ensures
        r@ == statements_of(attachments@),
{
    let ghost all = attachments@;
    let mut rest = attachments;
    let mut out: Vec<Attachment> = Vec::new();
    while rest.len() > 0
        invariant
            statements_of(all) == out@ + statements_of(rest@),
        decreases rest.len(),
    {
        let ghost before = rest@;
        let a = rest.remove(0);
        proof {
            assert(before =~= seq![a] + rest@);
            rest@.lemma_filter_prepend(a, |x: Attachment| is_statement(x));
        }
        if is_statement_file(&a) {
            out.push(a);
        }
        assert(statements_of(all) =~= out@ + statements_of(rest@));
    }
    assert(statements_of(rest@) =~= Seq::<Attachment>::empty()) by {
        reveal(Seq::filter);
    }
    assert(out@ =~= statements_of(all));
    out
}

/// The statements among the attachments of `messages`: message after
/// message, each in its own order. A message without attachments adds none.
pub fn collect_statements(messages: Vec<Vec<Attachment>>) -> (r: Vec<Attachment>)
    ensures
        r@ == statements_of(all_attachments(messages@)),
{
    let ghost whole = statements_of(all_attachments(messages@));
    let mut rest = messages;
    let mut out: Vec<Attachment> = Vec::new();
    while rest.len() > 0
        invariant
            whole == out@ + statements_of(all_attachments(rest@)),
        decreases rest.len(),
    {
        let ghost before = rest@;
        let m = rest.remove(0);
        let ghost mv = m@;
        proof {
            assert(before.map_values(|m: Vec<Attachment>| m@).drop_first()
                =~= rest@.map_values(|m: Vec<Attachment>| m@));
            assert(all_attachments(before) == mv + all_attachments(rest@));
            Seq::filter_distributes_over_add(mv, all_attachments(rest@), |x: Attachment| is_statement(x));
        }
        let mut chosen = select_statements(m);
        out.append(&mut chosen);
        assert(whole =~= out@ + statements_of(all_attachments(rest@)));
    }
    assert(statements_of(all_attachments(rest@)) =~= Seq::<Attachment>::empty()) by {
        assert(all_attachments(rest@) =~= Seq::<Attachment>::empty());
        reveal(Seq::filter);
    }
    assert(out@ =~= whole);
    out
}

/// Whether a message has attachments at all.
pub open spec fn has_attachments(m: Vec<Attachment>) -> bool {
    m@.len() > 0
}

/// Messages without attachments contribute no statement: two lists of
/// messages that differ only in messages without attachments, wherever they
/// stand and however many, give the same statements; a list of such messages
/// alone gives none.
pub proof fn messages_without_attachments_add_nothing(
    with_empty: Seq<Vec<Attachment>>,
    without_empty: Seq<Vec<Attachment>>,
)
    requires
        with_empty.filter(|m: Vec<Attachment>| has_attachments(m)) == without_empty.filter(
            |m: Vec<Attachment>| has_attachments(m),
        ),
    ensures
        statements_of(all_attachments(with_empty)) == statements_of(all_attachments(without_empty)),
        (forall|i: int| 0 <= i < with_empty.len() ==> (#[trigger] with_empty[i])@.len() == 0)
            ==> statements_of(all_attachments(with_empty)).len() == 0,
{
    lemma_flatten_skips_empty(with_empty);
    lemma_flatten_skips_empty(without_empty);
    if forall|i: int| 0 <= i < with_empty.len() ==> (#[trigger] with_empty[i])@.len() == 0 {
        lemma_flatten_empty_parts(with_empty);
    }
}

proof fn lemma_flatten_single(m: Vec<Attachment>)
    ensures
        all_attachments(seq![m]) == m@,
{
    let s = seq![m];
    let views = s.map_values(|x: Vec<Attachment>| x@);
    assert(views.drop_first() =~= Seq::<Seq<Attachment>>::empty());
    assert(views.first() == m@);
    assert(views.drop_first().flatten() =~= Seq::<Attachment>::empty());
    assert(all_attachments(s) == views.first() + views.drop_first().flatten());
    assert(all_attachments(s) =~= m@);
}

proof fn lemma_flatten_skips_empty(msgs: Seq<Vec<Attachment>>)
    ensures
        all_attachments(msgs) == all_attachments(msgs.filter(|m: Vec<Attachment>| has_attachments(m))),
    decreases msgs.len(),
{
    let p = |m: Vec<Attachment>| has_attachments(m);
    reveal(Seq::filter);
    if msgs.len() == 0 {
        assert(msgs.filter(p) =~= msgs);
    } else {
        let rest = msgs.drop_last();
        let last = msgs.last();
        lemma_flatten_skips_empty(rest);
        assert(msgs =~= rest + seq![last]);
        lemma_flatten_concat(rest, seq![last]);
        lemma_flatten_single(last);
        if has_attachments(last) {
            assert(msgs.filter(p) == rest.filter(p).push(last));
            assert(rest.filter(p).push(last) =~= rest.filter(p) + seq![last]);
            lemma_flatten_concat(rest.filter(p), seq![last]);
        } else {
            assert(msgs.filter(p) == rest.filter(p));
            assert(last@ =~= Seq::<Attachment>::empty());
            assert(all_attachments(msgs) =~= all_attachments(rest));
        }
    }
}

proof fn lemma_flatten_concat(a: Seq<Vec<Attachment>>, b: Seq<Vec<Attachment>>)
    ensures
        all_attachments(a + b) == all_attachments(a) + all_attachments(b),
    decreases a.len(),
{
    if a.len() == 0 {
        assert(a + b =~= b);
        assert(all_attachments(a) =~= Seq::<Attachment>::empty());
        assert(all_attachments(a + b) =~= all_attachments(a) + all_attachments(b));
    } else {
        assert((a + b).drop_first() =~= a.drop_first() + b);
        lemma_flatten_concat(a.drop_first(), b);
        assert(a.map_values(|m: Vec<Attachment>| m@).drop_first() =~= a.drop_first().map_values(
            |m: Vec<Attachment>| m@,
        ));
        assert((a + b).map_values(|m: Vec<Attachment>| m@).drop_first() =~= (a + b).drop_first().map_values(
            |m: Vec<Attachment>| m@,
        ));
        assert(all_attachments(a + b) =~= all_attachments(a) + all_attachments(b));
    }
}

proof fn lemma_flatten_empty_parts(empty: Seq<Vec<Attachment>>)
    requires
        forall|i: int| 0 <= i < empty.len() ==> (#[trigger] empty[i])@.len() == 0,
    ensures
        all_attachments(empty) == Seq::<Attachment>::empty(),
        statements_of(all_attachments(empty)).len() == 0,
    decreases empty.len(),
{
    if empty.len() > 0 {
        assert(empty.map_values(|m: Vec<Attachment>| m@).drop_first() =~= empty.drop_first().map_values(
            |m: Vec<Attachment>| m@,
        ));
        assert(forall|i: int| 0 <= i < empty.drop_first().len() ==> empty.drop_first()[i] == empty[i + 1]);
        lemma_flatten_empty_parts(empty.drop_first());
        assert(empty[0]@.len() == 0);
        assert(all_attachments(empty) =~= Seq::<Attachment>::empty());
    }
    reveal(Seq::filter);
}

} // verus!
