//! Chainable diagnostic decorators: each operation pairs a value with the
//! labeled diagnostic line it asks to be written, and passes the value
//! through unchanged.

use vstd::prelude::*;

verus! {

/// The output stream a diagnostic line is destined for.
#[derive(Clone, Copy, Debug, PartialEq, Eq, Structural)]
pub enum Stream {
    /// The process's standard output.
    Stdout,
    /// The process's standard error.
    Stderr,
}

/// One diagnostic line that a decorator call asks to be written.
pub struct Emission {
    pub stream: Stream,
    pub line: String,
}

/// The line a labeled decorator writes: `"{label}: {rendered}"`.
pub open spec fn decorated_line(label: Seq<char>, rendered: Seq<char>) -> Seq<char> {
    label + ": "@ + rendered
}

/// Joins a label and a rendered value into one diagnostic line.
pub fn compose_line(label: &str, rendered: &str) -> (r: String)
    ensures
        r@ == decorated_line(label@, rendered@),
{
    let mut line = label.to_owned();
    line.append(": ");
    line.append(rendered);
    line
}

/// The decimal digit character for `d`.
pub open spec fn dec_digit(d: u64) -> char
    recommends
        d < 10,
{
    if d == 0 {
        '0'
    } else if d == 1 {
        '1'
    } else if d == 2 {
        '2'
    } else if d == 3 {
        '3'
    } else if d == 4 {
        '4'
    } else if d == 5 {
        '5'
    } else if d == 6 {
        '6'
    } else if d == 7 {
        '7'
    } else if d == 8 {
        '8'
    } else {
        '9'
    }
}

/// The decimal form of `n`: most significant digit first, no leading zero
/// except for `n == 0` itself.
pub open spec fn dec_repr(n: u64) -> Seq<char>
    decreases n,
{
    if n < 10 {
        seq![dec_digit(n)]
    } else {
        dec_repr(n / 10) + seq![dec_digit(n % 10)]
    }
}

/// The one-character string for a single decimal digit.
fn dec_digit_str(d: u64) -> (r: &'static str)
    requires
        d < 10,
    ensures
        r@ == seq![dec_digit(d)],
{
    proof {
        reveal_strlit("0");
        reveal_strlit("1");
        reveal_strlit("2");
        reveal_strlit("3");
        reveal_strlit("4");
        reveal_strlit("5");
        reveal_strlit("6");
        reveal_strlit("7");
        reveal_strlit("8");
        reveal_strlit("9");
    }
    let r: &'static str = if d == 0 {
        "0"
    } else if d == 1 {
        "1"
    } else if d == 2 {
        "2"
    } else if d == 3 {
        "3"
    } else if d == 4 {
        "4"
    } else if d == 5 {
        "5"
    } else if d == 6 {
        "6"
    } else if d == 7 {
        "7"
    } else if d == 8 {
        "8"
    } else {
        "9"
    };
    proof {
        assert(r@ =~= seq![dec_digit(d)]);
    }
    r
}

/// Renders a 64-bit unsigned integer in decimal.
pub fn u64_rendered(n: u64) -> (r: String)
    ensures
        r@ == dec_repr(n),
    decreases n,
{
    if n < 10 {
        dec_digit_str(n).to_owned()
    } else {
        let mut s = u64_rendered(n / 10);
        s.append(dec_digit_str(n % 10));
        s
    }
}

/// Values with a human-readable rendering, to which the labeled printing
/// decorators attach.
///
/// Every decorator is a pure passthrough: it returns the value unchanged,
/// paired with the one diagnostic line it asks to be written. The
/// `*_dbg` variants take an explicit `debug_mode` flag and yield a line
/// exactly when the flag is set.
pub trait DisplayExt: Sized {
    /// The value's human-readable form.
    spec fn repr(&self) -> Seq<char>;

    /// Renders the value's human-readable form.
    fn rendered(&self) -> (r: String)
        ensures
            r@ == self.repr(),
    ;

    /// Yields the value unchanged beside the line `"{msg}: {value}"`,
    /// destined for standard output.
    fn println(self, msg: &str) -> (r: (Self, Emission))
        ensures
            r.0 == self,
            r.1.stream == Stream::Stdout,
            r.1.line@ == decorated_line(msg@, self.repr()),
    {
        let line = compose_line(msg, self.rendered().as_str());
        (self, Emission { stream: Stream::Stdout, line })
    }

    /// Yields the value unchanged beside the line `"{msg}: {value}"`,
    /// destined for standard error.
    fn eprintln(self, msg: &str) -> (r: (Self, Emission))
        ensures
            r.0 == self,
            r.1.stream == Stream::Stderr,
            r.1.line@ == decorated_line(msg@, self.repr()),
    {
        let line = compose_line(msg, self.rendered().as_str());
        (self, Emission { stream: Stream::Stderr, line })
    }

    /// Like `println`, but yields a line only when `debug_mode` is set;
    /// otherwise the call is the identity with no line at all.
    fn println_dbg(self, msg: &str, debug_mode: bool) -> (r: (Self, Option<Emission>))
        ensures
            r.0 == self,
            r.1 is Some <==> debug_mode,
            debug_mode ==> r.1->Some_0.stream == Stream::Stdout && r.1->Some_0.line@
                == decorated_line(msg@, self.repr()),
    {
        if debug_mode {
            let line = compose_line(msg, self.rendered().as_str());
            (self, Some(Emission { stream: Stream::Stdout, line }))
        } else {
            (self, None)
        }
    }

    /// Like `eprintln`, but yields a line only when `debug_mode` is set;
    /// otherwise the call is the identity with no line at all.
    fn eprintln_dbg(self, msg: &str, debug_mode: bool) -> (r: (Self, Option<Emission>))
        ensures
            r.0 == self,
            r.1 is Some <==> debug_mode,
            debug_mode ==> r.1->Some_0.stream == Stream::Stderr && r.1->Some_0.line@
                == decorated_line(msg@, self.repr()),
    {
        if debug_mode {
            let line = compose_line(msg, self.rendered().as_str());
            (self, Some(Emission { stream: Stream::Stderr, line }))
        } else {
            (self, None)
        }
    }
}

/// Values with a structural (debug) rendering, to which the structural
/// decorators attach.
///
/// Every decorator is a pure passthrough: it returns the value unchanged,
/// paired with the one diagnostic line it asks to be written. The
/// `*_dbg` variants take an explicit `debug_mode` flag and yield a line
/// exactly when the flag is set. The `dbg*` family stands for a
/// trace-style dump: it uses the pretty form, goes to standard error, and
/// leaves any call-site annotation to the layer that writes the line.
pub trait DebugExt: Sized {
    /// The value's compact structural form.
    spec fn drepr(&self) -> Seq<char>;

    /// The value's pretty, possibly multi-line structural form.
    spec fn dpretty(&self) -> Seq<char>;

    /// Renders the value's compact structural form.
    fn debug_rendered(&self) -> (r: String)
        ensures
            r@ == self.drepr(),
    ;

    /// Renders the value's pretty structural form.
    fn debug_pretty_rendered(&self) -> (r: String)
        ensures
            r@ == self.dpretty(),
    ;

    /// Yields the value unchanged beside the line `"{msg}: {value:?}"`,
    /// destined for standard output.
    fn dprintln(self, msg: &str) -> (r: (Self, Emission))
        ensures
            r.0 == self,
            r.1.stream == Stream::Stdout,
            r.1.line@ == decorated_line(msg@, self.drepr()),
    {
        let line = compose_line(msg, self.debug_rendered().as_str());
        (self, Emission { stream: Stream::Stdout, line })
    }

    /// Yields the value unchanged beside the line `"{msg}: {value:?}"`,
    /// destined for standard error.
    fn deprintln(self, msg: &str) -> (r: (Self, Emission))
        ensures
            r.0 == self,
            r.1.stream == Stream::Stderr,
            r.1.line@ == decorated_line(msg@, self.drepr()),
    {
        let line = compose_line(msg, self.debug_rendered().as_str());
        (self, Emission { stream: Stream::Stderr, line })
    }

    /// Like `dprintln`, but yields a line only when `debug_mode` is set;
    /// otherwise the call is the identity with no line at all.
    fn dprintln_dbg(self, msg: &str, debug_mode: bool) -> (r: (Self, Option<Emission>))
        ensures
            r.0 == self,
            r.1 is Some <==> debug_mode,
            debug_mode ==> r.1->Some_0.stream == Stream::Stdout && r.1->Some_0.line@
                == decorated_line(msg@, self.drepr()),
    {
        if debug_mode {
            let line = compose_line(msg, self.debug_rendered().as_str());
            (self, Some(Emission { stream: Stream::Stdout, line }))
        } else {
            (self, None)
        }
    }

    /// Like `deprintln`, but yields a line only when `debug_mode` is set;
    /// otherwise the call is the identity with no line at all.
    fn deprintln_dbg(self, msg: &str, debug_mode: bool) -> (r: (Self, Option<Emission>))
        ensures
            r.0 == self,
            r.1 is Some <==> debug_mode,
            debug_mode ==> r.1->Some_0.stream == Stream::Stderr && r.1->Some_0.line@
                == decorated_line(msg@, self.drepr()),
    {
        if debug_mode {
            let line = compose_line(msg, self.debug_rendered().as_str());
            (self, Some(Emission { stream: Stream::Stderr, line }))
        } else {
            (self, None)
        }
    }

    /// Yields the value unchanged beside the line `"{msg}: {value:#?}"`
    /// (pretty form), destined for standard output.
    fn dpprintln(self, msg: &str) -> (r: (Self, Emission))
        ensures
            r.0 == self,
            r.1.stream == Stream::Stdout,
            r.1.line@ == decorated_line(msg@, self.dpretty()),
    {
        let line = compose_line(msg, self.debug_pretty_rendered().as_str());
        (self, Emission { stream: Stream::Stdout, line })
    }

    /// Yields the value unchanged beside the line `"{msg}: {value:#?}"`
    /// (pretty form), destined for standard error.
    fn depprintln(self, msg: &str) -> (r: (Self, Emission))
        ensures
            r.0 == self,
            r.1.stream == Stream::Stderr,
            r.1.line@ == decorated_line(msg@, self.dpretty()),
    {
        let line = compose_line(msg, self.debug_pretty_rendered().as_str());
        (self, Emission { stream: Stream::Stderr, line })
    }

    /// Like `dpprintln`, but yields a line only when `debug_mode` is set;
    /// otherwise the call is the identity with no line at all.
    fn dpprintln_dbg(self, msg: &str, debug_mode: bool) -> (r: (Self, Option<Emission>))
        ensures
            r.0 == self,
            r.1 is Some <==> debug_mode,
            debug_mode ==> r.1->Some_0.stream == Stream::Stdout && r.1->Some_0.line@
                == decorated_line(msg@, self.dpretty()),
    {
        if debug_mode {
            let line = compose_line(msg, self.debug_pretty_rendered().as_str());
            (self, Some(Emission { stream: Stream::Stdout, line }))
        } else {
            (self, None)
        }
    }

    /// Like `depprintln`, but yields a line only when `debug_mode` is set;
    /// otherwise the call is the identity with no line at all.
    fn depprintln_dbg(self, msg: &str, debug_mode: bool) -> (r: (Self, Option<Emission>))
        ensures
            r.0 == self,
            r.1 is Some <==> debug_mode,
            debug_mode ==> r.1->Some_0.stream == Stream::Stderr && r.1->Some_0.line@
                == decorated_line(msg@, self.dpretty()),
    {
        if debug_mode {
            let line = compose_line(msg, self.debug_pretty_rendered().as_str());
            (self, Some(Emission { stream: Stream::Stderr, line }))
        } else {
            (self, None)
        }
    }

    /// Trace-style dump: yields the value unchanged beside its pretty form,
    /// destined for standard error.
    fn dbg(self) -> (r: (Self, Emission))
        ensures
            r.0 == self,
            r.1.stream == Stream::Stderr,
            r.1.line@ == self.dpretty(),
    {
        let line = self.debug_pretty_rendered();
        (self, Emission { stream: Stream::Stderr, line })
    }

    /// Like `dbg`, but yields a line only when `debug_mode` is set;
    /// otherwise the call is the identity with no line at all.
    fn dbg_dbg(self, debug_mode: bool) -> (r: (Self, Option<Emission>))
        ensures
            r.0 == self,
            r.1 is Some <==> debug_mode,
            debug_mode ==> r.1->Some_0.stream == Stream::Stderr && r.1->Some_0.line@
                == self.dpretty(),
    {
        if debug_mode {
            let line = self.debug_pretty_rendered();
            (self, Some(Emission { stream: Stream::Stderr, line }))
        } else {
            (self, None)
        }
    }

    /// Trace-style dump with a caller-supplied tag: yields the value
    /// unchanged beside the line `"{tag}: {value:#?}"`, destined for
    /// standard error.
    fn dbg_tagged(self, tag: &str) -> (r: (Self, Emission))
        ensures
            r.0 == self,
            r.1.stream == Stream::Stderr,
            r.1.line@ == decorated_line(tag@, self.dpretty()),
    {
        let line = compose_line(tag, self.debug_pretty_rendered().as_str());
        (self, Emission { stream: Stream::Stderr, line })
    }

    /// Like `dbg_tagged`, but yields a line only when `debug_mode` is set;
    /// otherwise the call is the identity with no line at all.
    fn dbg_tagged_dbg(self, tag: &str, debug_mode: bool) -> (r: (Self, Option<Emission>))
        ensures
            r.0 == self,
            r.1 is Some <==> debug_mode,
            debug_mode ==> r.1->Some_0.stream == Stream::Stderr && r.1->Some_0.line@
                == decorated_line(tag@, self.dpretty()),
    {
        if debug_mode {
            let line = compose_line(tag, self.debug_pretty_rendered().as_str());
            (self, Some(Emission { stream: Stream::Stderr, line }))
        } else {
            (self, None)
        }
    }
}

impl DisplayExt for String {
    open spec fn repr(&self) -> Seq<char> {
        self@
    }

    fn rendered(&self) -> (r: String) {
        self.clone()
    }
}

impl DebugExt for String {
    open spec fn drepr(&self) -> Seq<char> {
        "\""@ + self@ + "\""@
    }

    open spec fn dpretty(&self) -> Seq<char> {
        self.drepr()
    }

    fn debug_rendered(&self) -> (r: String) {
        let mut s = "\"".to_owned();
        s.append(self.as_str());
        s.append("\"");
        s
    }

    fn debug_pretty_rendered(&self) -> (r: String) {
        self.debug_rendered()
    }
}

impl DisplayExt for u64 {
    open spec fn repr(&self) -> Seq<char> {
        dec_repr(*self)
    }

    fn rendered(&self) -> (r: String) {
        u64_rendered(*self)
    }
}

impl DebugExt for u64 {
    open spec fn drepr(&self) -> Seq<char> {
        dec_repr(*self)
    }

    open spec fn dpretty(&self) -> Seq<char> {
        dec_repr(*self)
    }

    fn debug_rendered(&self) -> (r: String) {
        u64_rendered(*self)
    }

    fn debug_pretty_rendered(&self) -> (r: String) {
        u64_rendered(*self)
    }
}

impl DisplayExt for bool {
    open spec fn repr(&self) -> Seq<char> {
        if *self {
            "true"@
        } else {
            "false"@
        }
    }

    fn rendered(&self) -> (r: String) {
        if *self {
            "true".to_owned()
        } else {
            "false".to_owned()
        }
    }
}

impl DebugExt for bool {
    open spec fn drepr(&self) -> Seq<char> {
        if *self {
            "true"@
        } else {
            "false"@
        }
    }

    open spec fn dpretty(&self) -> Seq<char> {
        self.drepr()
    }

    fn debug_rendered(&self) -> (r: String) {
        if *self {
            "true".to_owned()
        } else {
            "false".to_owned()
        }
    }

    fn debug_pretty_rendered(&self) -> (r: String) {
        self.debug_rendered()
    }
}

} // verus!
