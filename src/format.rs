use vstd::prelude::*;

verus! {

/// An IPv4 address, as its four octets in network order.
#[derive(Clone, Copy, Debug, PartialEq, Eq, Structural)]
pub struct Ipv4 {
    pub a: u8,
    pub b: u8,
    pub c: u8,
    pub d: u8,
}

/// The payload of one resource record, as far as the trace reads it.
#[derive(Clone, Debug)]
pub enum RecordData {
    /// An address record.
    A(Ipv4),
    /// An alias, with its target name.
    Cname(String),
    /// A delegation, with the nameserver's fully qualified name.
    Ns(String),
    /// Any other payload, carried as a structural dump for display.
    Other(String),
}

/// How a line is set off when it is shown on a terminal.
#[derive(Clone, Copy, Debug, PartialEq, Eq, Structural)]
pub enum Style {
    /// Progress of the walk: not authoritative, querying.
    Progress,
    /// A final answer.
    Answer,
    /// A branch that ended without an answer.
    Failure,
}

/// One line of the trace: its indent in columns, its style and its text.
#[derive(Clone, Debug)]
pub struct Line {
    pub indent: usize,
    pub style: Style,
    pub text: String,
}

/// The text of one decimal digit.
pub open spec fn digit_text(d: nat) -> Seq<char> {
    if d == 0 {
        "0"@
    } else if d == 1 {
        "1"@
    } else if d == 2 {
        "2"@
    } else if d == 3 {
        "3"@
    } else if d == 4 {
        "4"@
    } else if d == 5 {
        "5"@
    } else if d == 6 {
        "6"@
    } else if d == 7 {
        "7"@
    } else if d == 8 {
        "8"@
    } else {
        "9"@
    }
}

/// The decimal text of a natural number, without leading zeros.
pub open spec fn decimal_text(n: nat) -> Seq<char>
    decreases n,
{
    if n < 10 {
        digit_text(n)
    } else {
        decimal_text(n / 10) + digit_text(n % 10)
    }
}

/// The dotted-quad text of an IPv4 address.
pub open spec fn ipv4_text(ip: Ipv4) -> Seq<char> {
    decimal_text(ip.a as nat) + "."@ + decimal_text(ip.b as nat) + "."@ + decimal_text(
        ip.c as nat,
    ) + "."@ + decimal_text(ip.d as nat)
}

/// The display text of a record payload.
pub open spec fn rdata_text(r: RecordData) -> Seq<char> {
    match r {
        RecordData::A(ip) => ipv4_text(ip),
        RecordData::Cname(target) => "CNAME "@ + target@,
        RecordData::Ns(name) => "NS "@ + name@,
        RecordData::Other(dump) => dump@,
    }
}

/// The line that says the server asked is not authoritative.
pub open spec fn not_authoritative_text() -> Seq<char> {
    "This server is not authoritative"@
}

/// The line that announces a descent to a nameserver at an address.
pub open spec fn querying_text(name: Seq<char>, ip: Ipv4) -> Seq<char> {
    "Querying "@ + name + " ("@ + ipv4_text(ip) + ")"@
}

/// The line that gives one answer record for the queried name.
pub open spec fn answer_text(owner: Seq<char>, r: RecordData) -> Seq<char> {
    owner + " -> "@ + rdata_text(r)
}

/// The line that reports a response with neither answers nor authority.
pub open spec fn unable_text(dump: Seq<char>) -> Seq<char> {
    "Unable to resolve. Got: "@ + dump
}

fn digit_str(d: u8) -> (r: &'static str)
    requires
        d < 10,
    ensures
        r@ == digit_text(d as nat),
{
    match d {
        0 => "0",
        1 => "1",
        2 => "2",
        3 => "3",
        4 => "4",
        5 => "5",
        6 => "6",
        7 => "7",
        8 => "8",
        _ => "9",
    }
}

/// Appends the decimal text of `n` to `out`.
pub fn push_decimal(out: &mut String, n: u8)
    ensures
        final(out)@ == old(out)@ + decimal_text(n as nat),
{
    let ghost before = out@;
    if n >= 100 {
        out.append(digit_str(n / 100));
        out.append(digit_str((n / 10) % 10));
        out.append(digit_str(n % 10));
        proof {
            let t = (n / 10) as nat;
            assert(t / 10 == (n / 100) as nat);
            assert(decimal_text(t) == decimal_text(t / 10) + digit_text(t % 10));
            assert(decimal_text(n as nat) == decimal_text(t) + digit_text((n % 10) as nat));
            assert(decimal_text((n / 100) as nat) == digit_text((n / 100) as nat));
            assert(out@ =~= before + decimal_text(n as nat));
        }
    } else if n >= 10 {
        out.append(digit_str(n / 10));
        out.append(digit_str(n % 10));
        proof {
            assert(decimal_text((n / 10) as nat) == digit_text((n / 10) as nat));
            assert(out@ =~= before + decimal_text(n as nat));
        }
    } else {
        out.append(digit_str(n));
    }
}

/// The dotted-quad text of an IPv4 address.
pub fn format_ipv4(ip: Ipv4) -> (r: String)
    ensures
        r@ == ipv4_text(ip),
{
    let mut s = String::new();
    push_decimal(&mut s, ip.a);
    s.append(".");
    push_decimal(&mut s, ip.b);
    s.append(".");
    push_decimal(&mut s, ip.c);
    s.append(".");
    push_decimal(&mut s, ip.d);
    s
}

/// The display text of a record payload: the dotted quad of an address,
/// `CNAME ` and the target of an alias, and the carried dump otherwise.
pub fn pretty_print(rdata: &RecordData) -> (r: String)
    ensures
        r@ == rdata_text(*rdata),
{
    match rdata {
        RecordData::A(ip) => format_ipv4(*ip),
        RecordData::Cname(target) => {
            let mut s = String::from_str("CNAME ");
            s.append(target.as_str());
            s
        },
        RecordData::Ns(name) => {
            let mut s = String::from_str("NS ");
            s.append(name.as_str());
            s
        },
        RecordData::Other(dump) => dump.clone(),
    }
}

/// The status line that a referral opens with.
pub fn not_authoritative_line(indent: usize) -> (r: Line)
    ensures
        r.indent == indent,
        r.style == Style::Progress,
        r.text@ == not_authoritative_text(),
{
    Line { indent, style: Style::Progress, text: String::from_str("This server is not authoritative") }
}

/// The status line that announces the descent to `name` at `ip`.
pub fn querying_line(indent: usize, name: &String, ip: Ipv4) -> (r: Line)
    ensures
        r.indent == indent,
        r.style == Style::Progress,
        r.text@ == querying_text(name@, ip),
{
    let mut text = String::from_str("Querying ");
    text.append(name.as_str());
    text.append(" (");
    let addr = format_ipv4(ip);
    text.append(addr.as_str());
    text.append(")");
    Line { indent, style: Style::Progress, text }
}

/// The line of one answer record for the queried name `owner`.
pub fn answer_line(indent: usize, owner: &String, rdata: &RecordData) -> (r: Line)
    ensures
        r.indent == indent,
        r.style == Style::Answer,
        r.text@ == answer_text(owner@, *rdata),
{
    let mut text = owner.clone();
    text.append(" -> ");
    let shown = pretty_print(rdata);
    text.append(shown.as_str());
    Line { indent, style: Style::Answer, text }
}

/// The diagnostic line of a dead end, carrying a dump of the response.
pub fn unable_line(indent: usize, dump: &String) -> (r: Line)
    ensures
        r.indent == indent,
        r.style == Style::Failure,
        r.text@ == unable_text(dump@),
{
    let mut text = String::from_str("Unable to resolve. Got: ");
    text.append(dump.as_str());
    Line { indent, style: Style::Failure, text }
}

/// Formatting is a function of the payload alone: two calls on equal
/// payloads give equal text.
pub proof fn pretty_print_is_deterministic(r1: RecordData, r2: RecordData)
    requires
        r1 == r2,
    ensures
        rdata_text(r1) == rdata_text(r2),
{
}

} // verus!
