use vstd::prelude::*;

verus! {

/// A remote issue: where it is shown, its number and its title.
pub struct Issue {
    pub html_url: String,
    pub number: usize,
    pub title: String,
}

/// One element of the response body as it was read: each field the
/// element may lack.
pub struct RawIssue {
    pub html_url: Option<String>,
    pub number: Option<usize>,
    pub title: Option<String>,
}

/// The response body does not have the shape of a list of issues.
#[derive(Clone, Copy, Debug, PartialEq, Eq, Structural)]
pub struct DecodeError;

/// The element carries every required field.
pub open spec fn is_whole(r: RawIssue) -> bool {
    r.html_url is Some && r.number is Some && r.title is Some
}

/// `i` holds exactly the fields of the whole element `r`.
pub open spec fn decodes_to(r: RawIssue, i: Issue) -> bool {
    &&& r.html_url matches Some(u) && u@ == i.html_url@
    &&& r.number == Some(i.number)
    &&& r.title matches Some(t) && t@ == i.title@
}

/// Turns the elements of a response body into issues, in the same order.
/// A single element that lacks a field fails the whole body.
pub fn decode_issues(raw: Vec<RawIssue>) -> (r: Result<Vec<Issue>, DecodeError>)
    ensures
        r is Ok <==> forall|k: int| 0 <= k < raw@.len() ==> #[trigger] is_whole(raw@[k]),
        r matches Ok(v) ==> v@.len() == raw@.len() && forall|k: int|
            0 <= k < raw@.len() ==> decodes_to(#[trigger] raw@[k], v@[k]),
{
    let mut out: Vec<Issue> = Vec::new();
    let mut i: usize = 0;
    while i < raw.len()
        invariant
            i <= raw@.len(),
            out@.len() == i,
            forall|k: int| 0 <= k < i ==> #[trigger] is_whole(raw@[k]),
            forall|k: int| 0 <= k < i ==> decodes_to(#[trigger] raw@[k], out@[k]),
        decreases raw@.len() - i,
    {
        let r = &raw[i];
        match (&r.html_url, r.number, &r.title) {
            (Some(u), Some(n), Some(t)) => {
                out.push(Issue { html_url: u.clone(), number: n, title: t.clone() });
            },
            _ => {
                assert(!is_whole(raw@[i as int]));
                return Err(DecodeError);
            },
        }
        i = i + 1;
    }
    Ok(out)
}

/// The decimal digit character for `d < 10`.
pub open spec fn digit_char(d: nat) -> char {
    if d == 0 { '0' } else if d == 1 { '1' } else if d == 2 { '2' } else if d == 3 { '3' }
    else if d == 4 { '4' } else if d == 5 { '5' } else if d == 6 { '6' } else if d == 7 { '7' }
    else if d == 8 { '8' } else { '9' }
}

/// The decimal notation of `n`, without leading zeros.
pub open spec fn decimal(n: nat) -> Seq<char>
    decreases n,
{
    if n < 10 {
        seq![digit_char(n)]
    } else {
        decimal(n / 10).push(digit_char(n % 10))
    }
}

fn digit_str(d: usize) -> (r: &'static str)
    requires
        d < 10,
    ensures
        r@ == seq![digit_char(d as nat)],
{
    proof {
        reveal_strlit("0");
        reveal_strlit("1");
        reveal_strlit("2");
        reveal_strlit("3");
        reveal_strlit("4");
        reveal_strlit("5");
        reveal_strlit("6");
        reveal_strlit("7");
        reveal_strlit("8");
        reveal_strlit("9");
    }
    let r = if d == 0 { "0" } else if d == 1 { "1" } else if d == 2 { "2" } else if d == 3 { "3" }
    else if d == 4 { "4" } else if d == 5 { "5" } else if d == 6 { "6" } else if d == 7 { "7" }
    else if d == 8 { "8" } else { "9" };
    assert(r@ =~= seq![digit_char(d as nat)]);
    r
}

/// Writes `n` in decimal.
pub fn decimal_string(n: usize) -> (r: String)
    ensures
        r@ == decimal(n as nat),
    decreases n,
{
    if n < 10 {
        String::from_str(digit_str(n))
    } else {
        let mut s = decimal_string(n / 10);
        s.append(digit_str(n % 10));
        s
    }
}

/// The line that stands for `i` in the selection menu.
pub open spec fn menu_text(i: Issue) -> Seq<char> {
    "(Issue "@ + decimal(i.number as nat) + ": "@ + i.title@ + ")"@
}

impl Issue {
    /// The issue as it is shown in the selection menu:
    /// `(Issue <number>: <title>)`.
    pub fn render(&self) -> (r: String)
        ensures
            r@ == menu_text(*self),
    {
        let mut s = String::from_str("(Issue ");
        let digits = decimal_string(self.number);
        s.append(digits.as_str());
        s.append(": ");
        s.append(self.title.as_str());
        s.append(")");
        s
    }
}

/// The menu lines for `issues`, one per issue and in the same order.
pub fn menu_items(issues: &Vec<Issue>) -> (r: Vec<String>)
    ensures
        r@.len() == issues@.len(),
        forall|k: int| 0 <= k < issues@.len() ==> #[trigger] r@[k]@ == menu_text(issues@[k]),
{
    let mut out: Vec<String> = Vec::new();
    let mut i: usize = 0;
    while i < issues.len()
        invariant
            i <= issues@.len(),
            out@.len() == i,
            forall|k: int| 0 <= k < i ==> #[trigger] out@[k]@ == menu_text(issues@[k]),
        decreases issues@.len() - i,
    {
        out.push(issues[i].render());
        i = i + 1;
    }
    out
}

} // verus!
