use vstd::prelude::*;
use vstd::string::StringExecFns;

use crate::metas::{Meta, Style};

verus! {

/// The character of decimal digit `d`.
pub open spec fn digit(d: nat) -> char {
    seq!['0', '1', '2', '3', '4', '5', '6', '7', '8', '9'][d as int]
}

/// The decimal numeral of `n`, without leading zeros.
pub open spec fn decimal(n: nat) -> Seq<char>
    decreases n,
{
    if n < 10 {
        seq![digit(n)]
    } else {
        decimal(n / 10) + seq![digit(n % 10)]
    }
}

fn digit_str(d: u32) -> (r: &'static str)
    requires
        d < 10,
    ensures
        r@ == seq![digit(d as nat)],
{
    proof {
        reveal_strlit("0");
        reveal_strlit("1");
        reveal_strlit("2");
        reveal_strlit("3");
        reveal_strlit("4");
        reveal_strlit("5");
        reveal_strlit("6");
        reveal_strlit("7");
        reveal_strlit("8");
        reveal_strlit("9");
    }
    let r = match d {
        0 => "0",
        1 => "1",
        2 => "2",
        3 => "3",
        4 => "4",
        5 => "5",
        6 => "6",
        7 => "7",
        8 => "8",
        _ => "9",
    };
    assert(r@ =~= seq![digit(d as nat)]);
    r
}

/// The decimal numeral of `n`.
pub fn decimal_string(n: u32) -> (r: String)
    ensures
        r@ == decimal(n as nat),
    decreases n,
{
    let mut s = if n >= 10 {
        decimal_string(n / 10)
    } else {
        String::new()
    };
    s.append(digit_str(n % 10));
    assert(s@ =~= decimal(n as nat));
    s
}

/// How one style reads in a listing: `name (id: n)`.
pub open spec fn style_text(s: Style) -> Seq<char> {
    s.name@ + " (id: "@ + decimal(s.id as nat) + ")"@
}

/// The styles, in order, separated by `, `.
pub open spec fn styles_text(styles: Seq<Style>) -> Seq<char>
    decreases styles.len(),
{
    if styles.len() == 0 {
        Seq::empty()
    } else if styles.len() == 1 {
        style_text(styles[0])
    } else {
        styles_text(styles.drop_last()) + ", "@ + style_text(styles.last())
    }
}

/// How one speaker reads in the plain-text catalog listing: its name, then
/// on indented lines its styles, its uuid and its version.
pub open spec fn speaker_text(m: Meta) -> Seq<char> {
    m.name@ + "\n\tstyles: "@ + styles_text(m.styles@) + "\n\tspeaker_uuid: "@ + m.speaker_uuid@
        + "\n\tversion: "@ + m.version@
}

fn describe_style(s: &Style) -> (r: String)
    ensures
        r@ == style_text(*s),
{
    let mut r = s.name.clone();
    r.append(" (id: ");
    let id = decimal_string(s.id);
    r.append(id.as_str());
    r.append(")");
    assert(r@ =~= style_text(*s));
    r
}

/// The plain-text record of one speaker.
pub fn describe_speaker(meta: &Meta) -> (r: String)
    ensures
        r@ == speaker_text(*meta),
{
    let mut r = meta.name.clone();
    r.append("\n\tstyles: ");
    let ghost head = r@;
    let mut i: usize = 0;
    while i < meta.styles.len()
        invariant
            i <= meta.styles@.len(),
            r@ == head + styles_text(meta.styles@.subrange(0, i as int)),
        decreases meta.styles@.len() - i,
    {
        let ghost before = r@;
        if i > 0 {
            r.append(", ");
        }
        let t = describe_style(&meta.styles[i]);
        r.append(t.as_str());
        proof {
            let done = meta.styles@.subrange(0, i + 1);
            assert(done.drop_last() =~= meta.styles@.subrange(0, i as int));
            assert(done.last() == meta.styles@[i as int]);
            if i == 0 {
                assert(styles_text(meta.styles@.subrange(0, 0)) =~= Seq::<char>::empty());
                assert(r@ =~= head + styles_text(done));
            } else {
                assert(r@ =~= head + styles_text(done));
            }
        }
        i = i + 1;
    }
    assert(meta.styles@.subrange(0, meta.styles@.len() as int) =~= meta.styles@);
    r.append("\n\tspeaker_uuid: ");
    r.append(meta.speaker_uuid.as_str());
    r.append("\n\tversion: ");
    r.append(meta.version.as_str());
    assert(r@ =~= speaker_text(*meta));
    r
}

} // verus!
