use vstd::prelude::*;

use crate::text::{dec_digits, json_escaped, push_json_escaped, push_u32_decimal};
use crate::turn::{Role, Turn, TurnV};

verus! {

/// The protocol ceiling on the requested token count.
pub const MAX_TOKENS_CEILING: u32 = 4096;

/// The wire text of a role.
pub open spec fn role_text(r: Role) -> Seq<char> {
    match r {
        Role::User => "user"@,
        Role::Assistant => "assistant"@,
    }
}

/// The JSON object of one turn: content first, then role.
pub open spec fn turn_json(t: TurnV) -> Seq<char> {
    "{\"content\":\""@ + json_escaped(t.content) + "\",\"role\":\""@ + role_text(t.role) + "\"}"@
}

/// The comma-separated JSON objects of a whole transcript.
pub open spec fn turns_json(ts: Seq<TurnV>) -> Seq<char>
    decreases ts.len(),
{
    if ts.len() == 0 {
        Seq::empty()
    } else if ts.len() == 1 {
        turn_json(ts[0])
    } else {
        turn_json(ts[0]) + ","@ + turns_json(ts.drop_first())
    }
}

/// The one outbound JSON document: identity header, chat parameters with the
/// already-clamped token count and the raw decimal text of the temperature,
/// and the transcript snapshot as payload.
pub open spec fn request_json(
    app_id: Seq<char>,
    uid: Seq<char>,
    domain: Seq<char>,
    temperature: Seq<char>,
    max_tokens: int,
    turns: Seq<TurnV>,
) -> Seq<char> {
    "{\"header\":{\"app_id\":\""@ + json_escaped(app_id) + "\",\"uid\":\""@ + json_escaped(uid)
        + "\"},\"parameter\":{\"chat\":{\"domain\":\""@ + json_escaped(domain)
        + "\",\"max_tokens\":"@ + dec_digits(max_tokens as nat) + ",\"temperature\":"@
        + temperature + "}},\"payload\":{\"message\":{\"text\":["@ + turns_json(turns) + "]}}}"@
}

/// Serializing a transcript one turn at a time, left to right, agrees with
/// `turns_json` of the whole.
proof fn lemma_turns_json_push(ts: Seq<TurnV>, t: TurnV)
    ensures
        turns_json(ts.push(t)) == if ts.len() == 0 {
            turn_json(t)
        } else {
            turns_json(ts) + ","@ + turn_json(t)
        },
    decreases ts.len(),
{
    let tsp = ts.push(t);
    if ts.len() == 0 {
        assert(tsp[0] == t);
    } else {
        assert(tsp[0] == ts[0]);
        assert(tsp.drop_first() =~= ts.drop_first().push(t));
        lemma_turns_json_push(ts.drop_first(), t);
        if ts.len() == 1 {
            assert(turns_json(tsp) == turn_json(ts[0]) + ","@ + turn_json(t));
        } else {
            assert(turn_json(ts[0]) + ","@ + (turns_json(ts.drop_first()) + ","@ + turn_json(t))
                =~= (turn_json(ts[0]) + ","@ + turns_json(ts.drop_first())) + ","@ + turn_json(t));
        }
    }
}

fn push_role(out: &mut String, r: Role)
    ensures
        final(out)@ == old(out)@ + role_text(r),
{
    match r {
        Role::User => out.append("user"),
        Role::Assistant => out.append("assistant"),
    }
}

fn push_turn_json(out: &mut String, t: &Turn)
    ensures
        final(out)@ == old(out)@ + turn_json(t.deep_view()),
{
    out.append("{\"content\":\"");
    push_json_escaped(out, t.content.as_str());
    out.append("\",\"role\":\"");
    push_role(out, t.role);
    out.append("\"}");
    assert(final(out)@ =~= old(out)@ + turn_json(t.deep_view()));
}

fn push_turns_json(out: &mut String, turns: &Vec<Turn>)
    ensures
        final(out)@ == old(out)@ + turns_json(turns.deep_view()),
{
    let ghost start = out@;
    let n = turns.len();
    assert(turns.deep_view().subrange(0, 0) =~= Seq::<TurnV>::empty());
    for i in 0..n
        invariant
            n == turns@.len(),
            turns.deep_view().len() == n,
            out@ == start + turns_json(turns.deep_view().subrange(0, i as int)),
    {
        if i > 0 {
            out.append(",");
        }
        assert(turns.deep_view()[i as int] == turns@[i as int].deep_view());
        push_turn_json(out, &turns[i]);
        proof {
            let prefix = turns.deep_view().subrange(0, i as int);
            lemma_turns_json_push(prefix, turns.deep_view()[i as int]);
            assert(prefix.push(turns.deep_view()[i as int]) =~= turns.deep_view().subrange(
                0,
                i + 1 as int,
            ));
            if i > 0 {
                assert(start + (turns_json(prefix) + ","@ + turn_json(turns.deep_view()[i as int]))
                    =~= ((start + turns_json(prefix)) + ","@) + turn_json(
                    turns.deep_view()[i as int],
                ));
            } else {
                assert(prefix.len() == 0);
                assert(start + turns_json(prefix) =~= start);
            }
        }
    }
    assert(turns.deep_view().subrange(0, n as int) =~= turns.deep_view());
}

/// Builds the one outbound request document.
///
/// The token count is clamped to the protocol ceiling of 4096 whatever the
/// caller asked for; the temperature is a decimal literal passed through
/// unvalidated, as the protocol documents it.
pub fn build_request_json(
    app_id: &str,
    user_id: &str,
    domain: &str,
    temperature: &str,
    max_tokens: u32,
    turns: &Vec<Turn>,
) -> (r: String)
    ensures
        r@ == request_json(
            app_id@,
            user_id@,
            domain@,
            temperature@,
            if max_tokens > 4096 {
                4096int
            } else {
                max_tokens as int
            },
            turns.deep_view(),
        ),
{
    let clamped: u32 = if max_tokens > MAX_TOKENS_CEILING {
        MAX_TOKENS_CEILING
    } else {
        max_tokens
    };
    let mut out = String::new();
    out.append("{\"header\":{\"app_id\":\"");
    push_json_escaped(&mut out, app_id);
    out.append("\",\"uid\":\"");
    push_json_escaped(&mut out, user_id);
    out.append("\"},\"parameter\":{\"chat\":{\"domain\":\"");
    push_json_escaped(&mut out, domain);
    out.append("\",\"max_tokens\":");
    push_u32_decimal(&mut out, clamped);
    out.append(",\"temperature\":");
    out.append(temperature);
    out.append("}},\"payload\":{\"message\":{\"text\":[");
    push_turns_json(&mut out, turns);
    out.append("]}}}");
    assert(out@ =~= request_json(
        app_id@,
        user_id@,
        domain@,
        temperature@,
        clamped as int,
        turns.deep_view(),
    ));
    out
}

} // verus!
