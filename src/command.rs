use vstd::prelude::*;
use crate::NodeType;

verus! {

/// Step, in percent, of a relative change that names none.
pub const DEFAULT_MODIFY_STEP: u32 = 5;

/// Smallest relative change, in percent.
pub const MINIMUM_MODIFY_STEP: u32 = 1;

/// The views of a list of strings.
pub open spec fn texts(v: Seq<String>) -> Seq<Seq<char>> {
    v.map_values(|s: String| s@)
}

/// The token that names the default node of a type.
pub open spec fn specifier(node_type: NodeType) -> Seq<char> {
    match node_type {
        NodeType::Sink => "@DEFAULT_AUDIO_SINK@"@,
        NodeType::Source => "@DEFAULT_AUDIO_SOURCE@"@,
    }
}

/// The lower-case name of a node type.
pub open spec fn node_kind_name(node_type: NodeType) -> Seq<char> {
    match node_type {
        NodeType::Sink => "sink"@,
        NodeType::Source => "source"@,
    }
}

pub open spec fn digit_chars() -> Seq<char> {
    seq!['0', '1', '2', '3', '4', '5', '6', '7', '8', '9']
}

/// The decimal digits of `n`, without leading zeros.
pub open spec fn nat_text(n: nat) -> Seq<char>
    decreases n,
{
    if n < 10 {
        seq![digit_chars()[n as int]]
    } else {
        nat_text(n / 10).push(digit_chars()[(n % 10) as int])
    }
}

/// The shortest decimal text of `p / 100`: "0.05" for 5, "0.5" for 50, "1" for 100.
pub open spec fn percent_text(p: nat) -> Seq<char> {
    let whole = nat_text(p / 100);
    let cents = p % 100;
    if cents == 0 {
        whole
    } else if cents % 10 == 0 {
        whole + seq!['.', digit_chars()[(cents / 10) as int]]
    } else {
        whole + seq!['.', digit_chars()[(cents / 10) as int], digit_chars()[(cents % 10) as int]]
    }
}

/// The size, in percent, of a relative change: the given or default step, at least 1.
pub open spec fn relative_step(step: Option<u32>) -> nat {
    let s = match step {
        Some(s) => s,
        None => DEFAULT_MODIFY_STEP,
    };
    if s < MINIMUM_MODIFY_STEP {
        MINIMUM_MODIFY_STEP as nat
    } else {
        s as nat
    }
}

/// The arguments of a `set-volume` call that sets the default node of a type to `value`,
/// with the ceiling of 150%.
pub open spec fn set_volume_texts(node_type: NodeType, value: Seq<char>) -> Seq<Seq<char>> {
    seq!["set-volume"@, "-l"@, "1.5"@, specifier(node_type), value]
}

/// The token that names the default node of a type.
pub fn get_source_specifier(node_type: &NodeType) -> (r: String)
    ensures
        r@ == specifier(*node_type),
{
    match node_type {
        NodeType::Sink => String::from_str("@DEFAULT_AUDIO_SINK@"),
        NodeType::Source => String::from_str("@DEFAULT_AUDIO_SOURCE@"),
    }
}

/// The lower-case name of a node type.
pub fn node_type_to_str(node_type: &NodeType) -> (r: String)
    ensures
        r@ == node_kind_name(*node_type),
{
    match node_type {
        NodeType::Sink => String::from_str("sink"),
        NodeType::Source => String::from_str("source"),
    }
}

/// The one-character text of a decimal digit.
pub(crate) fn digit_str(d: u64) -> (r: &'static str)
    requires
        d < 10,
    ensures
        r@ == seq![digit_chars()[d as int]],
{
    let all = "0123456789";
    proof {
        reveal_strlit("0123456789");
    }
    assert(all@ =~= digit_chars());
    let r = all.substring_char(d as usize, d as usize + 1);
    assert(r@ =~= seq![digit_chars()[d as int]]);
    r
}

/// Appends the decimal digits of `n`.
pub(crate) fn push_nat(out: &mut String, n: u64)
    ensures
        final(out)@ == old(out)@ + nat_text(n as nat),
    decreases n,
{
    if n >= 10 {
        push_nat(out, n / 10);
        out.append(digit_str(n % 10));
        assert(final(out)@ =~= old(out)@ + nat_text(n as nat));
    } else {
        out.append(digit_str(n));
    }
}

/// The shortest decimal text of `p / 100`.
fn percent_string(p: u32) -> (r: String)
    ensures
        r@ == percent_text(p as nat),
{
    let mut out = String::new();
    push_nat(&mut out, (p / 100) as u64);
    let cents = p % 100;
    if cents != 0 {
        out.append(".");
        out.append(digit_str((cents / 10) as u64));
        if cents % 10 != 0 {
            out.append(digit_str((cents % 10) as u64));
        }
    }
    proof {
        reveal_strlit(".");
        assert(out@ =~= percent_text(p as nat));
    }
    out
}

/// The arguments of a `set-volume` call that sets the default node of a type to `value`.
fn set_volume_args(value: String, node_type: &NodeType) -> (r: Vec<String>)
    ensures
        texts(r@) == set_volume_texts(*node_type, value@),
{
    let mut v: Vec<String> = Vec::new();
    v.push(String::from_str("set-volume"));
    v.push(String::from_str("-l"));
    v.push(String::from_str("1.5"));
    v.push(get_source_specifier(node_type));
    v.push(value);
    assert(texts(v@) =~= set_volume_texts(*node_type, value@));
    v
}

/// The arguments of a `set-volume` call that moves the level of the default node by
/// the step (5 when none is given, at least 1) in percent, in the direction `sign`
/// ("+" or "-").
pub fn modify_rel(step: Option<u32>, sign: &str, node_type: &NodeType) -> (r: Vec<String>)
    ensures
        texts(r@) == set_volume_texts(*node_type, percent_text(relative_step(step)) + sign@),
        relative_step(step) >= 1,
{
    let s = match step {
        Some(s) => s,
        None => DEFAULT_MODIFY_STEP,
    };
    let s = if s < MINIMUM_MODIFY_STEP {
        MINIMUM_MODIFY_STEP
    } else {
        s
    };
    let mut value = percent_string(s);
    value.append(sign);
    set_volume_args(value, node_type)
}

/// The arguments of a `set-volume` call that sets the level of the default node to
/// `value` percent.
pub fn modify_set(value: u32, node_type: &NodeType) -> (r: Vec<String>)
    ensures
        texts(r@) == set_volume_texts(*node_type, percent_text(value as nat)),
{
    set_volume_args(percent_string(value), node_type)
}

/// The arguments of a `set-mute` call that toggles the mute state of `specifier`.
pub fn toggle(specifier: String) -> (r: Vec<String>)
    ensures
        texts(r@) == seq!["set-mute"@, specifier@, "toggle"@],
{
    let mut v: Vec<String> = Vec::new();
    let ghost sp = specifier@;
    v.push(String::from_str("set-mute"));
    v.push(specifier);
    v.push(String::from_str("toggle"));
    assert(texts(v@) =~= seq!["set-mute"@, sp, "toggle"@]);
    v
}

/// The arguments of a `get-volume` call on the default node of a type.
pub fn get_volume_args(node_type: &NodeType) -> (r: Vec<String>)
    ensures
        texts(r@) == seq!["get-volume"@, specifier(*node_type)],
{
    let mut v: Vec<String> = Vec::new();
    v.push(String::from_str("get-volume"));
    v.push(get_source_specifier(node_type));
    assert(texts(v@) =~= seq!["get-volume"@, specifier(*node_type)]);
    v
}

} // verus!
