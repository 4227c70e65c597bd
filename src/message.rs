use vstd::prelude::*;

verus! {

/// The character that spells the decimal digit `d` (`d < 10`).
pub open spec fn digit_char(d: nat) -> char {
    if d == 0 {
        '0'
    } else if d == 1 {
        '1'
    } else if d == 2 {
        '2'
    } else if d == 3 {
        '3'
    } else if d == 4 {
        '4'
    } else if d == 5 {
        '5'
    } else if d == 6 {
        '6'
    } else if d == 7 {
        '7'
    } else if d == 8 {
        '8'
    } else {
        '9'
    }
}

/// The decimal spelling of `n`, most significant digit first, without leading zeros.
pub open spec fn decimal(n: nat) -> Seq<char>
    decreases n,
{
    if n < 10 {
        seq![digit_char(n)]
    } else {
        decimal(n / 10) + seq![digit_char(n % 10)]
    }
}

fn digit_text(d: u32) -> (r: &'static str)
    requires
        d < 10,
    ensures
        r@ == seq![digit_char(d as nat)],
{
    proof {
        reveal_strlit("0");
        reveal_strlit("1");
        reveal_strlit("2");
        reveal_strlit("3");
        reveal_strlit("4");
        reveal_strlit("5");
        reveal_strlit("6");
        reveal_strlit("7");
        reveal_strlit("8");
        reveal_strlit("9");
    }
    let r = match d {
        0 => "0",
        1 => "1",
        2 => "2",
        3 => "3",
        4 => "4",
        5 => "5",
        6 => "6",
        7 => "7",
        8 => "8",
        _ => "9",
    };
    assert(r@ =~= seq![digit_char(d as nat)]);
    r
}

/// Appends the decimal spelling of `n` to `out`.
pub fn push_decimal(out: &mut String, n: u32)
    ensures
        final(out)@ == old(out)@ + decimal(n as nat),
    decreases n,
{
    let ghost before = out@;
    if n >= 10 {
        push_decimal(out, n / 10);
    }
    out.append(digit_text(n % 10));
    assert(out@ =~= before + decimal(n as nat));
}

/// Name given to a thread that has none.
pub const UNNAMED_THREAD: &'static str = "<unnamed>";

/// Stands in for a payload that is not text.
pub const UNKNOWN_PAYLOAD: &'static str = "Box<Any>";

/// Where in the source a fault was raised.
pub struct SourceLocation {
    pub file: String,
    pub line: u32,
}

/// What is known of one fault at the moment it is raised.
pub struct CrashEvent {
    /// The faulting thread's name, if it has one.
    pub thread_name: Option<String>,
    /// The fault's message, if it was given as text.
    pub payload: Option<String>,
    /// The fault site, if known.
    pub location: Option<SourceLocation>,
}

/// The text of `s`, or `default` when there is none.
pub open spec fn text_or(s: Option<String>, default: Seq<char>) -> Seq<char> {
    match s {
        Some(t) => t@,
        None => default,
    }
}

/// `" at '<file>' line <line>"` for a known location, nothing otherwise.
pub open spec fn location_suffix(loc: Option<SourceLocation>) -> Seq<char> {
    match loc {
        Some(l) => " at '"@ + l.file@ + "' line "@ + decimal(l.line as nat),
        None => Seq::empty(),
    }
}

impl CrashEvent {
    /// The diagnostic line for this fault, as shown on the console and kept in the log.
    pub open spec fn message(self) -> Seq<char> {
        "thread '"@ + text_or(self.thread_name, UNNAMED_THREAD@) + "' panicked with '"@
            + text_or(self.payload, UNKNOWN_PAYLOAD@) + "'"@ + location_suffix(self.location)
    }

    /// What one fault adds to the log file: its message and a line break.
    pub open spec fn record(self) -> Seq<char> {
        self.message() + "\n"@
    }
}

fn push_text_or(out: &mut String, s: &Option<String>, default: &str)
    ensures
        final(out)@ == old(out)@ + text_or(*s, default@),
{
    match s {
        Some(t) => out.append(t.as_str()),
        None => out.append(default),
    }
}

/// Builds the diagnostic line for `event`:
/// `thread '<name>' panicked with '<payload>'`, then ` at '<file>' line <line>`
/// when the fault site is known.
pub fn format_message(event: &CrashEvent) -> (r: String)
    ensures
        r@ == event.message(),
{
    let mut out = String::new();
    out.append("thread '");
    push_text_or(&mut out, &event.thread_name, UNNAMED_THREAD);
    out.append("' panicked with '");
    push_text_or(&mut out, &event.payload, UNKNOWN_PAYLOAD);
    out.append("'");
    match &event.location {
        Some(l) => {
            out.append(" at '");
            out.append(l.file.as_str());
            out.append("' line ");
            push_decimal(&mut out, l.line);
        },
        None => {},
    }
    assert(out@ =~= event.message());
    out
}

/// The text that one fault adds to the log file: `message` and a line break.
pub fn log_record(message: &str) -> (r: String)
    ensures
        r@ == message@ + "\n"@,
{
    let mut out = String::from_str(message);
    out.append("\n");
    out
}

/// A fault with no thread name and no known site is reported under the unnamed-thread
/// placeholder, and its line ends right after the payload, with no location suffix.
pub proof fn lemma_missing_metadata_defaults(event: CrashEvent)
    requires
        event.thread_name is None,
        event.location is None,
    ensures
        event.message() == "thread '"@ + UNNAMED_THREAD@ + "' panicked with '"@ + text_or(
            event.payload,
            UNKNOWN_PAYLOAD@,
        ) + "'"@,
{
    assert(location_suffix(event.location) =~= Seq::<char>::empty());
    assert(event.message() =~= "thread '"@ + UNNAMED_THREAD@ + "' panicked with '"@ + text_or(
        event.payload,
        UNKNOWN_PAYLOAD@,
    ) + "'"@);
}

/// A fault whose payload is not text is reported with the unknown-payload placeholder in
/// place of its message; the rest of the line is unchanged.
pub proof fn lemma_non_text_payload(event: CrashEvent)
    requires
        event.payload is None,
    ensures
        event.message() == "thread '"@ + text_or(event.thread_name, UNNAMED_THREAD@)
            + "' panicked with '"@ + UNKNOWN_PAYLOAD@ + "'"@ + location_suffix(event.location),
{
}

} // verus!
