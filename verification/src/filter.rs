//! Audience filter expressions.
//!
//! Two parallel recursive boolean trees select a narrowcast audience: a
//! `Recipient` tree over audience-group leaves and a `Demographic` tree over
//! attribute leaves, each combined with AND, OR and NOT.  An operator node is
//! a proper three-case variant — there is no "operator with no operator
//! chosen" state — and the `and`/`or` combinators reject empty child sets
//! with `EmptyOperator`, while `not` always wraps exactly one child.  The
//! serializers walk the tree with an explicit work stack, never by
//! recursion, so trees of arbitrary finite depth serialize without
//! exhausting the call stack; their output is pinned by recursive text
//! specifications.

use vstd::prelude::*;

use crate::json::{append_json_string, str_text};
use crate::num::{append_dec, dec_text};

verus! {

/// Why a filter operator node could not be built.
#[derive(Clone, Copy, Debug, PartialEq, Eq, Structural)]
pub enum FilterError {
    /// `and`/`or` was given an empty child set, whose meaning would be
    /// ambiguous.
    EmptyOperator,
}

/// A recipient filter: an audience-group leaf, or an operator over child
/// filters.
pub enum Recipient {
    Audience { audience_group_id: u64 },
    And(Vec<Recipient>),
    Or(Vec<Recipient>),
    Not(Box<Recipient>),
}

/// The wire text of a recipient tree: nested tagged objects whose
/// `and`/`or`/`not` keys are present exactly when that operator was chosen.
pub open spec fn recipient_text(r: Recipient) -> Seq<char>
    decreases r,
{
    match r {
        Recipient::Audience { audience_group_id } => "{\"type\":\"audience\",\"audienceGroupId\":"@
            + dec_text(audience_group_id as int) + "}"@,
        Recipient::And(cs) => "{\"type\":\"operator\",\"and\":["@ + recipient_list_text(cs@)
            + "]}"@,
        Recipient::Or(cs) => "{\"type\":\"operator\",\"or\":["@ + recipient_list_text(cs@) + "]}"@,
        Recipient::Not(c) => "{\"type\":\"operator\",\"not\":"@ + recipient_text(*c) + "}"@,
    }
}

pub open spec fn recipient_list_text(cs: Seq<Recipient>) -> Seq<char>
    decreases cs,
{
    if cs.len() == 0 {
        Seq::empty()
    } else if cs.len() == 1 {
        recipient_text(cs[0])
    } else {
        recipient_text(cs[0]) + ","@ + recipient_list_text(cs.drop_first())
    }
}

impl Recipient {
    /// An audience-group leaf.
    pub fn audience(audience_group_id: u64) -> (r: Recipient)
        ensures
            r == (Recipient::Audience { audience_group_id }),
    {
        Recipient::Audience { audience_group_id }
    }

    /// Conjunction of one or more child filters; an empty child set is a
    /// construction error, never a vacuous truth.
    pub fn and(children: Vec<Recipient>) -> (r: Result<Recipient, FilterError>)
        ensures
            match r {
                Ok(f) => children@.len() > 0 && f == Recipient::And(children),
                Err(e) => children@.len() == 0 && e == FilterError::EmptyOperator,
            },
    {
        if children.len() == 0 {
            Err(FilterError::EmptyOperator)
        } else {
            Ok(Recipient::And(children))
        }
    }

    /// Disjunction of one or more child filters; an empty child set is a
    /// construction error, never a vacuous falsehood.
    pub fn or(children: Vec<Recipient>) -> (r: Result<Recipient, FilterError>)
        ensures
            match r {
                Ok(f) => children@.len() > 0 && f == Recipient::Or(children),
                Err(e) => children@.len() == 0 && e == FilterError::EmptyOperator,
            },
    {
        if children.len() == 0 {
            Err(FilterError::EmptyOperator)
        } else {
            Ok(Recipient::Or(children))
        }
    }

    /// Negation; always wraps exactly one child.
    pub fn not(child: Recipient) -> (r: Recipient)
        ensures
            r is Not,
            *r->Not_0 == child,
    {
        Recipient::Not(Box::new(child))
    }
}

/// One item of the serializer's work stack: a subtree still to render, or a
/// piece of punctuation to emit once the items above it are done.
enum RTok {
    Node(Recipient),
    Comma,
    CloseBrace,
    CloseBracketBrace,
}

spec fn rtok_text(t: RTok) -> Seq<char> {
    match t {
        RTok::Node(r) => recipient_text(r),
        RTok::Comma => ","@,
        RTok::CloseBrace => "}"@,
        RTok::CloseBracketBrace => "]}"@,
    }
}

/// Text still owed by a work stack, top item first.
spec fn rstack_text(ts: Seq<RTok>) -> Seq<char>
    decreases ts.len(),
{
    if ts.len() == 0 {
        Seq::empty()
    } else {
        rtok_text(ts.last()) + rstack_text(ts.drop_last())
    }
}

/// Termination measure of a subtree: enough budget for the node itself and
/// the punctuation its expansion pushes.
spec fn rweight(r: Recipient) -> nat
    decreases r,
{
    match r {
        Recipient::Audience { .. } => 1,
        Recipient::And(cs) => 2 + cs@.len() + rlist_weight(cs@),
        Recipient::Or(cs) => 2 + cs@.len() + rlist_weight(cs@),
        Recipient::Not(c) => 2 + rweight(*c),
    }
}

spec fn rlist_weight(cs: Seq<Recipient>) -> nat
    decreases cs,
{
    if cs.len() == 0 {
        0
    } else {
        rweight(cs[0]) + rlist_weight(cs.drop_first())
    }
}

spec fn rtok_weight(t: RTok) -> nat {
    match t {
        RTok::Node(r) => rweight(r),
        _ => 1,
    }
}

spec fn rstack_weight(ts: Seq<RTok>) -> nat
    decreases ts.len(),
{
    if ts.len() == 0 {
        0
    } else {
        rtok_weight(ts.last()) + rstack_weight(ts.drop_last())
    }
}

/// Pushes one work item.
fn push_tok(stack: &mut Vec<RTok>, t: RTok)
    ensures
        rstack_text(final(stack)@) == rtok_text(t) + rstack_text(old(stack)@),
        rstack_weight(final(stack)@) == rtok_weight(t) + rstack_weight(old(stack)@),
{
    let ghost prior = stack@;
    let ghost t0 = t;
    stack.push(t);
    proof {
        assert(stack@.drop_last() =~= prior);
        assert(stack@.last() == t0);
    }
}

/// Pushes the children of an `and`/`or` node, commas between them and the
/// closing punctuation below, so that popping renders them in order.
fn push_children(stack: &mut Vec<RTok>, cs: Vec<Recipient>)
    ensures
        rstack_text(final(stack)@) == recipient_list_text(cs@) + "]}"@ + rstack_text(old(stack)@),
        rstack_weight(final(stack)@) < rstack_weight(old(stack)@) + rweight(Recipient::And(cs)),
{
    let ghost base_text = rstack_text(stack@);
    let ghost base_weight = rstack_weight(stack@);
    let ghost all = cs@;
    let n = cs.len();
    push_tok(stack, RTok::CloseBracketBrace);
    let mut rest = cs;
    proof {
        assert(rest@ =~= all.take(n as int));
        assert(all.skip(n as int) =~= Seq::<Recipient>::empty());
    }
    while rest.len() > 0
        invariant
            rest@ =~= all.take(rest@.len() as int),
            rest@.len() <= n,
            n == all.len(),
            rstack_text(stack@) == recipient_list_text(all.skip(rest@.len() as int)) + "]}"@
                + base_text,
            rstack_weight(stack@) == rlist_weight(all.skip(rest@.len() as int)) + (
            if rest@.len() < n {
                (n - 1 - rest@.len()) as int
            } else {
                0
            }) + 1 + base_weight,
        decreases rest@.len(),
    {
        let ghost i = rest@.len() as int;
        let c = rest.pop().unwrap();
        let ghost c0 = c;
        proof {
            assert(rest@ =~= all.take(i - 1));
            assert(c0 == all[i - 1]);
        }
        if rest.len() + 1 < n {
            push_tok(stack, RTok::Comma);
        }
        push_tok(stack, RTok::Node(c));
        proof {
            let tail = all.skip(i);
            let cur = all.skip(i - 1);
            assert(cur[0] == all[i - 1]);
            assert(cur.drop_first() =~= tail);
            if i < n {
                assert(recipient_list_text(cur) == recipient_text(c0) + ","@
                    + recipient_list_text(tail));
                assert(rlist_weight(cur) == rweight(c0) + rlist_weight(tail));
            } else {
                assert(cur.len() == 1);
                assert(recipient_list_text(cur) == recipient_text(c0));
                assert(rlist_weight(cur) == rweight(c0) + rlist_weight(tail));
            }
            assert(rstack_text(stack@) =~= recipient_list_text(cur) + "]}"@ + base_text);
        }
    }
    proof {
        assert(all.skip(0) =~= all);
        assert(rweight(Recipient::And(cs)) == 2 + all.len() + rlist_weight(all));
        assert(rstack_weight(stack@) == rlist_weight(all) + (if 0 < n {
            (n - 1) as int
        } else {
            0
        }) + 1 + base_weight);
    }
}

/// Serializes a recipient tree as its wire text.  The walk is iterative —
/// an explicit work stack, no recursion — so trees of arbitrary finite
/// depth serialize without exhausting the call stack.
pub fn serialize_recipient(r: Recipient) -> (s: String)
    ensures
        s@ == recipient_text(r),
{
    let ghost target = recipient_text(r);
    let mut out = String::new();
    let mut stack: Vec<RTok> = Vec::new();
    push_tok(&mut stack, RTok::Node(r));
    while stack.len() > 0
        invariant
            out@ + rstack_text(stack@) == target,
        decreases rstack_weight(stack@),
    {
        let ghost pre_stack = stack@;
        let ghost pre_out = out@;
        let t = stack.pop().unwrap();
        let ghost t0 = t;
        proof {
            assert(stack@ =~= pre_stack.drop_last());
            assert(t0 == pre_stack.last());
            assert(rstack_text(pre_stack) == rtok_text(t0) + rstack_text(stack@));
            assert(rstack_weight(pre_stack) == rtok_weight(t0) + rstack_weight(stack@));
        }
        match t {
            RTok::Comma => {
                out.append(",");
            },
            RTok::CloseBrace => {
                out.append("}");
            },
            RTok::CloseBracketBrace => {
                out.append("]}");
            },
            RTok::Node(node) => {
                let ghost node0 = node;
                match node {
                    Recipient::Audience { audience_group_id } => {
                        out.append("{\"type\":\"audience\",\"audienceGroupId\":");
                        append_dec(&mut out, audience_group_id);
                        out.append("}");
                    },
                    Recipient::And(cs) => {
                        out.append("{\"type\":\"operator\",\"and\":[");
                        let ghost cs0 = cs@;
                        push_children(&mut stack, cs);
                        proof {
                            assert(node0 is And);
                            assert(rweight(node0) == 2 + cs0.len() + rlist_weight(cs0));
                        }
                    },
                    Recipient::Or(cs) => {
                        out.append("{\"type\":\"operator\",\"or\":[");
                        let ghost cs0 = cs@;
                        push_children(&mut stack, cs);
                        proof {
                            assert(node0 is Or);
                            assert(rweight(node0) == 2 + cs0.len() + rlist_weight(cs0));
                        }
                    },
                    Recipient::Not(c) => {
                        out.append("{\"type\":\"operator\",\"not\":");
                        push_tok(&mut stack, RTok::CloseBrace);
                        push_tok(&mut stack, RTok::Node(*c));
                    },
                }
            },
        }
        proof {
            assert(out@ + rstack_text(stack@) =~= target);
            assert(rstack_weight(stack@) < rstack_weight(pre_stack));
        }
    }
    proof {
        assert(out@ =~= target);
    }
    out
}

/// A demographic filter: an attribute leaf, or an operator over child
/// filters.
pub enum Demographic {
    Gender { one_of: Vec<String> },
    Age { gte: Option<String>, lt: Option<String> },
    AppType { one_of: Vec<String> },
    Area { one_of: Vec<String> },
    SubscriptionPeriod { gte: Option<String>, lt: Option<String> },
    And(Vec<Demographic>),
    Or(Vec<Demographic>),
    Not(Box<Demographic>),
}

pub open spec fn str_opt_view(v: Option<String>) -> Option<Seq<char>> {
    match v {
        Some(s) => Some(s@),
        None => None,
    }
}

/// A comma-separated list of JSON string literals.
pub open spec fn string_list_text(ts: Seq<Seq<char>>) -> Seq<char>
    decreases ts.len(),
{
    if ts.len() == 0 {
        Seq::empty()
    } else if ts.len() == 1 {
        str_text(ts[0])
    } else {
        string_list_text(ts.drop_last()) + ","@ + str_text(ts.last())
    }
}

/// An optional range bound, written as its pair only when populated.
pub open spec fn opt_field_text(prefix: Seq<char>, v: Option<Seq<char>>) -> Seq<char> {
    match v {
        Some(t) => prefix + str_text(t),
        None => Seq::empty(),
    }
}

/// The wire text of a demographic tree: nested tagged objects whose
/// `and`/`or`/`not` keys are present exactly when that operator was chosen,
/// and whose optional range bounds are present exactly when populated.
pub open spec fn demographic_text(d: Demographic) -> Seq<char>
    decreases d,
{
    match d {
        Demographic::Gender { one_of } => "{\"type\":\"gender\",\"oneOf\":["@ + string_list_text(
            one_of@.map_values(|s: String| s@),
        ) + "]}"@,
        Demographic::Age { gte, lt } => "{\"type\":\"age\""@ + opt_field_text(
            ",\"gte\":"@,
            str_opt_view(gte),
        ) + opt_field_text(",\"lt\":"@, str_opt_view(lt)) + "}"@,
        Demographic::AppType { one_of } => "{\"type\":\"appType\",\"oneOf\":["@
            + string_list_text(one_of@.map_values(|s: String| s@)) + "]}"@,
        Demographic::Area { one_of } => "{\"type\":\"area\",\"oneOf\":["@ + string_list_text(
            one_of@.map_values(|s: String| s@),
        ) + "]}"@,
        Demographic::SubscriptionPeriod { gte, lt } => "{\"type\":\"subscriptionPeriod\""@
            + opt_field_text(",\"gte\":"@, str_opt_view(gte)) + opt_field_text(
            ",\"lt\":"@,
            str_opt_view(lt),
        ) + "}"@,
        Demographic::And(cs) => "{\"type\":\"operator\",\"and\":["@ + demographic_list_text(cs@)
            + "]}"@,
        Demographic::Or(cs) => "{\"type\":\"operator\",\"or\":["@ + demographic_list_text(cs@)
            + "]}"@,
        Demographic::Not(c) => "{\"type\":\"operator\",\"not\":"@ + demographic_text(*c) + "}"@,
    }
}

pub open spec fn demographic_list_text(cs: Seq<Demographic>) -> Seq<char>
    decreases cs,
{
    if cs.len() == 0 {
        Seq::empty()
    } else if cs.len() == 1 {
        demographic_text(cs[0])
    } else {
        demographic_text(cs[0]) + ","@ + demographic_list_text(cs.drop_first())
    }
}

impl Demographic {
    /// Conjunction of one or more child filters; an empty child set is a
    /// construction error, never a vacuous truth.
    pub fn and(children: Vec<Demographic>) -> (r: Result<Demographic, FilterError>)
        ensures
            match r {
                Ok(f) => children@.len() > 0 && f == Demographic::And(children),
                Err(e) => children@.len() == 0 && e == FilterError::EmptyOperator,
            },
    {
        if children.len() == 0 {
            Err(FilterError::EmptyOperator)
        } else {
            Ok(Demographic::And(children))
        }
    }

    /// Disjunction of one or more child filters; an empty child set is a
    /// construction error, never a vacuous falsehood.
    pub fn or(children: Vec<Demographic>) -> (r: Result<Demographic, FilterError>)
        ensures
            match r {
                Ok(f) => children@.len() > 0 && f == Demographic::Or(children),
                Err(e) => children@.len() == 0 && e == FilterError::EmptyOperator,
            },
    {
        if children.len() == 0 {
            Err(FilterError::EmptyOperator)
        } else {
            Ok(Demographic::Or(children))
        }
    }

    /// Negation; always wraps exactly one child.
    pub fn not(child: Demographic) -> (r: Demographic)
        ensures
            r is Not,
            *r->Not_0 == child,
    {
        Demographic::Not(Box::new(child))
    }
}

/// Appends a comma-separated list of JSON string literals.
pub(crate) fn append_string_list(out: &mut String, ts: &Vec<String>)
    ensures
        final(out)@ == old(out)@ + string_list_text(ts@.map_values(|s: String| s@)),
{
    let n = ts.len();
    let mut i: usize = 0;
    while i < n
        invariant
            n == ts@.len(),
            i <= n,
            out@ == old(out)@ + string_list_text(ts@.take(i as int).map_values(|s: String| s@)),
        decreases n - i,
    {
        if i > 0 {
            out.append(",");
        }
        append_json_string(out, ts[i].as_str());
        proof {
            let cur = ts@.take(i + 1).map_values(|s: String| s@);
            assert(cur.drop_last() =~= ts@.take(i as int).map_values(|s: String| s@));
            assert(cur.last() == ts@[i as int]@);
            assert(out@ =~= old(out)@ + string_list_text(cur));
        }
        i += 1;
    }
    proof {
        assert(ts@.take(n as int) =~= ts@);
    }
}

/// Appends an optional range bound: the given prefix and the bound's string
/// literal, or nothing.
fn append_opt_field(out: &mut String, prefix: &str, v: &Option<String>)
    ensures
        final(out)@ == old(out)@ + opt_field_text(prefix@, str_opt_view(*v)),
{
    match v {
        Some(t) => {
            out.append(prefix);
            append_json_string(out, t.as_str());
            proof {
                assert(final(out)@ =~= old(out)@ + opt_field_text(prefix@, str_opt_view(*v)));
            }
        },
        None => {},
    }
}

/// One item of the demographic serializer's work stack.
enum DTok {
    Node(Demographic),
    Comma,
    CloseBrace,
    CloseBracketBrace,
}

spec fn dtok_text(t: DTok) -> Seq<char> {
    match t {
        DTok::Node(d) => demographic_text(d),
        DTok::Comma => ","@,
        DTok::CloseBrace => "}"@,
        DTok::CloseBracketBrace => "]}"@,
    }
}

spec fn dstack_text(ts: Seq<DTok>) -> Seq<char>
    decreases ts.len(),
{
    if ts.len() == 0 {
        Seq::empty()
    } else {
        dtok_text(ts.last()) + dstack_text(ts.drop_last())
    }
}

spec fn dweight(d: Demographic) -> nat
    decreases d,
{
    match d {
        Demographic::And(cs) => 2 + cs@.len() + dlist_weight(cs@),
        Demographic::Or(cs) => 2 + cs@.len() + dlist_weight(cs@),
        Demographic::Not(c) => 2 + dweight(*c),
        _ => 1,
    }
}

spec fn dlist_weight(cs: Seq<Demographic>) -> nat
    decreases cs,
{
    if cs.len() == 0 {
        0
    } else {
        dweight(cs[0]) + dlist_weight(cs.drop_first())
    }
}

spec fn dtok_weight(t: DTok) -> nat {
    match t {
        DTok::Node(d) => dweight(d),
        _ => 1,
    }
}

spec fn dstack_weight(ts: Seq<DTok>) -> nat
    decreases ts.len(),
{
    if ts.len() == 0 {
        0
    } else {
        dtok_weight(ts.last()) + dstack_weight(ts.drop_last())
    }
}

/// Pushes one work item.
fn push_dtok(stack: &mut Vec<DTok>, t: DTok)
    ensures
        dstack_text(final(stack)@) == dtok_text(t) + dstack_text(old(stack)@),
        dstack_weight(final(stack)@) == dtok_weight(t) + dstack_weight(old(stack)@),
{
    let ghost prior = stack@;
    let ghost t0 = t;
    stack.push(t);
    proof {
        assert(stack@.drop_last() =~= prior);
        assert(stack@.last() == t0);
    }
}

/// Pushes the children of an `and`/`or` node, commas between them and the
/// closing punctuation below, so that popping renders them in order.
fn push_demographic_children(stack: &mut Vec<DTok>, cs: Vec<Demographic>)
    ensures
        dstack_text(final(stack)@) == demographic_list_text(cs@) + "]}"@ + dstack_text(
            old(stack)@,
        ),
        dstack_weight(final(stack)@) < dstack_weight(old(stack)@) + dweight(Demographic::And(cs)),
{
    let ghost base_text = dstack_text(stack@);
    let ghost base_weight = dstack_weight(stack@);
    let ghost all = cs@;
    let n = cs.len();
    push_dtok(stack, DTok::CloseBracketBrace);
    let mut rest = cs;
    proof {
        assert(rest@ =~= all.take(n as int));
        assert(all.skip(n as int) =~= Seq::<Demographic>::empty());
    }
    while rest.len() > 0
        invariant
            rest@ =~= all.take(rest@.len() as int),
            rest@.len() <= n,
            n == all.len(),
            dstack_text(stack@) == demographic_list_text(all.skip(rest@.len() as int)) + "]}"@
                + base_text,
            dstack_weight(stack@) == dlist_weight(all.skip(rest@.len() as int)) + (
            if rest@.len() < n {
                (n - 1 - rest@.len()) as int
            } else {
                0
            }) + 1 + base_weight,
        decreases rest@.len(),
    {
        let ghost i = rest@.len() as int;
        let c = rest.pop().unwrap();
        let ghost c0 = c;
        proof {
            assert(rest@ =~= all.take(i - 1));
            assert(c0 == all[i - 1]);
        }
        if rest.len() + 1 < n {
            push_dtok(stack, DTok::Comma);
        }
        push_dtok(stack, DTok::Node(c));
        proof {
            let tail = all.skip(i);
            let cur = all.skip(i - 1);
            assert(cur[0] == all[i - 1]);
            assert(cur.drop_first() =~= tail);
            if i < n {
                assert(demographic_list_text(cur) == demographic_text(c0) + ","@
                    + demographic_list_text(tail));
                assert(dlist_weight(cur) == dweight(c0) + dlist_weight(tail));
            } else {
                assert(cur.len() == 1);
                assert(demographic_list_text(cur) == demographic_text(c0));
                assert(dlist_weight(cur) == dweight(c0) + dlist_weight(tail));
            }
            assert(dstack_text(stack@) =~= demographic_list_text(cur) + "]}"@ + base_text);
        }
    }
    proof {
        assert(all.skip(0) =~= all);
        assert(dweight(Demographic::And(cs)) == 2 + all.len() + dlist_weight(all));
        assert(dstack_weight(stack@) == dlist_weight(all) + (if 0 < n {
            (n - 1) as int
        } else {
            0
        }) + 1 + base_weight);
    }
}

/// Serializes a demographic tree as its wire text.  The walk is iterative —
/// an explicit work stack, no recursion — so trees of arbitrary finite
/// depth serialize without exhausting the call stack.
pub fn serialize_demographic(d: Demographic) -> (s: String)
    ensures
        s@ == demographic_text(d),
{
    let ghost target = demographic_text(d);
    let mut out = String::new();
    let mut stack: Vec<DTok> = Vec::new();
    push_dtok(&mut stack, DTok::Node(d));
    while stack.len() > 0
        invariant
            out@ + dstack_text(stack@) == target,
        decreases dstack_weight(stack@),
    {
        let ghost pre_stack = stack@;
        let t = stack.pop().unwrap();
        let ghost t0 = t;
        proof {
            assert(stack@ =~= pre_stack.drop_last());
            assert(t0 == pre_stack.last());
            assert(dstack_text(pre_stack) == dtok_text(t0) + dstack_text(stack@));
            assert(dstack_weight(pre_stack) == dtok_weight(t0) + dstack_weight(stack@));
        }
        match t {
            DTok::Comma => {
                out.append(",");
            },
            DTok::CloseBrace => {
                out.append("}");
            },
            DTok::CloseBracketBrace => {
                out.append("]}");
            },
            DTok::Node(node) => {
                let ghost node0 = node;
                match node {
                    Demographic::Gender { one_of } => {
                        out.append("{\"type\":\"gender\",\"oneOf\":[");
                        append_string_list(&mut out, &one_of);
                        out.append("]}");
                    },
                    Demographic::Age { gte, lt } => {
                        out.append("{\"type\":\"age\"");
                        append_opt_field(&mut out, ",\"gte\":", &gte);
                        append_opt_field(&mut out, ",\"lt\":", &lt);
                        out.append("}");
                    },
                    Demographic::AppType { one_of } => {
                        out.append("{\"type\":\"appType\",\"oneOf\":[");
                        append_string_list(&mut out, &one_of);
                        out.append("]}");
                    },
                    Demographic::Area { one_of } => {
                        out.append("{\"type\":\"area\",\"oneOf\":[");
                        append_string_list(&mut out, &one_of);
                        out.append("]}");
                    },
                    Demographic::SubscriptionPeriod { gte, lt } => {
                        out.append("{\"type\":\"subscriptionPeriod\"");
                        append_opt_field(&mut out, ",\"gte\":", &gte);
                        append_opt_field(&mut out, ",\"lt\":", &lt);
                        out.append("}");
                    },
                    Demographic::And(cs) => {
                        out.append("{\"type\":\"operator\",\"and\":[");
                        let ghost cs0 = cs@;
                        push_demographic_children(&mut stack, cs);
                        proof {
                            assert(node0 is And);
                            assert(dweight(node0) == 2 + cs0.len() + dlist_weight(cs0));
                        }
                    },
                    Demographic::Or(cs) => {
                        out.append("{\"type\":\"operator\",\"or\":[");
                        let ghost cs0 = cs@;
                        push_demographic_children(&mut stack, cs);
                        proof {
                            assert(node0 is Or);
                            assert(dweight(node0) == 2 + cs0.len() + dlist_weight(cs0));
                        }
                    },
                    Demographic::Not(c) => {
                        out.append("{\"type\":\"operator\",\"not\":");
                        push_dtok(&mut stack, DTok::CloseBrace);
                        push_dtok(&mut stack, DTok::Node(*c));
                    },
                }
            },
        }
        proof {
            assert(out@ + dstack_text(stack@) =~= target);
            assert(dstack_weight(stack@) < dstack_weight(pre_stack));
        }
    }
    proof {
        assert(out@ =~= target);
    }
    out
}

/// The demographic condition attached to a narrowcast.
pub struct Filter {
    pub demographic: Demographic,
}

pub open spec fn filter_text(f: Filter) -> Seq<char> {
    "{\"demographic\":"@ + demographic_text(f.demographic) + "}"@
}

/// Serializes a filter as its wire object.
pub fn serialize_filter(f: Filter) -> (s: String)
    ensures
        s@ == filter_text(f),
{
    let ghost f0 = f;
    let mut out = String::new();
    out.append("{\"demographic\":");
    let inner = serialize_demographic(f.demographic);
    out.append(inner.as_str());
    out.append("}");
    proof {
        assert(out@ =~= filter_text(f0));
    }
    out
}

/// The most recipients a narrowcast may reach.
pub struct Limit {
    pub max: usize,
}

pub open spec fn limit_text(l: Limit) -> Seq<char> {
    "{\"max\":"@ + dec_text(l.max as int) + "}"@
}

/// Serializes a limit as its wire object.
pub fn serialize_limit(l: &Limit) -> (s: String)
    ensures
        s@ == limit_text(*l),
{
    let mut out = String::new();
    out.append("{\"max\":");
    append_dec(&mut out, l.max as u64);
    out.append("}");
    proof {
        assert(out@ =~= limit_text(*l));
    }
    out
}

} // verus!
