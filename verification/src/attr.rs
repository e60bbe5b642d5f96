//! The arguments of the attribute that marks an image's entry point,
//! and what they configure.
//!
//! The arguments arrive as plain values: each is a name with a value,
//! a name with a list, a bare name or a literal, and holds its place
//! among the arguments. Every fault is recorded with the place of the
//! argument that caused it; reading goes on behind a fault, so that
//! all of them are found in one pass.
use vstd::prelude::*;

verus! {

/// A literal among the arguments.
#[derive(Clone, Debug, PartialEq, Eq)]
pub enum Lit {
    /// A string, with its text.
    Str(String),
    /// An integer, with its value where that fits in 64 bits.
    Int(Option<u64>),
    /// Any other literal.
    Other,
}

/// One item of the list behind a name. `None` stands for a path that
/// is more than one word.
#[derive(Clone, Debug, PartialEq, Eq)]
pub enum Nested {
    Path(Option<String>),
    List(Option<String>),
    NameValue(Option<String>),
    Lit(Lit),
}

/// One argument. `None` stands for a path that is more than one word.
#[derive(Clone, Debug, PartialEq, Eq)]
pub enum Arg {
    NameValue { name: Option<String>, value: Lit },
    List { name: Option<String>, items: Vec<Nested> },
    Path { name: Option<String> },
    Lit(Lit),
}

/// An option that can be given once.
#[derive(Clone, Copy, Debug, PartialEq, Eq, Structural)]
pub enum Attr {
    Crate,
    Delay,
    Log,
    Color,
    Exclude,
    Alloc,
    AllocError,
    Panic,
}

/// What is wrong with an argument.
#[derive(Clone, Copy, Debug, PartialEq, Eq, Structural)]
pub enum ArgErrorKind {
    /// The option was given before.
    Duplicate(Attr),
    /// The value must be a string.
    ExpectedStringLiteral,
    /// The list must start with a value.
    ExpectedValue,
    /// The value must be an integer.
    ExpectedInteger,
    /// Nothing is known by this name in this place.
    Unexpected,
    /// `delay` was given bare. It takes a value: `delay(VALUE)`.
    DelayNeedsValue,
    /// A literal stands where an option must.
    UnknownLiteral,
    /// A second identifier was given for one protocol.
    DuplicateGuid,
}

/// A fault, with the place of the argument and, for a fault inside a
/// list, the place of the item in the list.
#[derive(Clone, Copy, Debug, PartialEq, Eq, Structural)]
pub struct ArgError {
    pub at: usize,
    pub inner: Option<usize>,
    pub kind: ArgErrorKind,
}

/// The options of `log(..)`.
#[derive(Clone, Debug, PartialEq, Eq)]
pub struct Log {
    /// Whether the log is written in colour.
    pub color: bool,
    /// Whether every target is written.
    pub all: bool,
    /// The targets that are written, where not all are.
    pub targets: Option<Vec<String>>,
    /// The targets that are left out.
    pub exclude: Option<Vec<String>>,
}

/// The options of the entry attribute.
#[derive(Clone, Debug, PartialEq, Eq)]
pub struct Config {
    /// The name under which the library is known: `crate = "name"`.
    pub krate: Option<String>,
    /// Seconds to wait before the image goes back to the firmware:
    /// `delay(30)`.
    pub delay: Option<u64>,
    /// Whether the allocator is registered: `alloc`.
    pub alloc: bool,
    /// Whether the panic handler is generated: `panic`.
    pub panic: bool,
    /// Whether the handler for failed allocations is generated:
    /// `alloc_error`.
    pub alloc_error: bool,
    /// Whether and how the logger is generated: `log`, `log(..)`.
    pub log: Option<Log>,
}

/// The texts of a list of strings.
pub open spec fn texts(v: Option<Vec<String>>) -> Option<Seq<Seq<char>>> {
    match v {
        Some(v) => Some(v@.map_values(|s: String| s@)),
        None => None,
    }
}

/// What a `Log` holds.
pub struct LogView {
    pub color: bool,
    pub all: bool,
    pub targets: Option<Seq<Seq<char>>>,
    pub exclude: Option<Seq<Seq<char>>>,
}

/// What a `Config` holds.
pub struct ConfigView {
    pub krate: Option<Seq<char>>,
    pub delay: Option<u64>,
    pub alloc: bool,
    pub panic: bool,
    pub alloc_error: bool,
    pub log: Option<LogView>,
}

impl View for Log {
    type V = LogView;

    open spec fn view(&self) -> LogView {
        LogView {
            color: self.color,
            all: self.all,
            targets: texts(self.targets),
            exclude: texts(self.exclude),
        }
    }
}

impl View for Config {
    type V = ConfigView;

    open spec fn view(&self) -> ConfigView {
        ConfigView {
            krate: match self.krate {
                Some(s) => Some(s@),
                None => None,
            },
            delay: self.delay,
            alloc: self.alloc,
            panic: self.panic,
            alloc_error: self.alloc_error,
            log: match self.log {
                Some(l) => Some(l@),
                None => None,
            },
        }
    }
}

/// The log options before any was read.
pub open spec fn new_log() -> LogView {
    LogView { color: false, all: false, targets: None, exclude: None }
}

/// The options before any was read.
pub open spec fn new_config() -> ConfigView {
    ConfigView {
        krate: None,
        delay: None,
        alloc: false,
        panic: false,
        alloc_error: false,
        log: None,
    }
}

impl Log {
    pub fn new() -> (r: Self)
        ensures
            r@ == new_log(),
    {
        Log { color: false, all: false, targets: None, exclude: None }
    }
}

impl Config {
    pub fn new() -> (r: Self)
        ensures
            r@ == new_config(),
    {
        Config {
            krate: None,
            delay: None,
            alloc: false,
            panic: false,
            alloc_error: false,
            log: None,
        }
    }
}

/// The options read so far and the faults found so far.
pub struct Reading {
    pub opts: ConfigView,
    pub errors: Seq<ArgError>,
}

impl Reading {
    /// The reading with one more fault.
    pub open spec fn fault(self, at: usize, inner: Option<usize>, kind: ArgErrorKind) -> Reading {
        Reading { errors: self.errors.push(ArgError { at, inner, kind }), ..self }
    }

    /// The reading with a fault more where `cond` holds.
    pub open spec fn fault_if(self, cond: bool, at: usize, kind: ArgErrorKind) -> Reading {
        if cond {
            self.fault(at, None, kind)
        } else {
            self
        }
    }
}

/// Whether `name` is the word `word`.
fn is_word(name: &String, word: &str) -> (r: bool)
    ensures
        r == (name@ == word@),
{
    let w = word.to_owned();
    *name == w
}

/// Records a fault.
fn push_fault(errors: &mut Vec<ArgError>, at: usize, inner: Option<usize>, kind: ArgErrorKind)
    ensures
        final(errors)@ == old(errors)@.push(ArgError { at, inner, kind }),
{
    errors.push(ArgError { at, inner, kind });
}

/// What `crate = value` does: the name is kept if the value is a
/// string and no name was kept before.
pub open spec fn krate_step(r: Reading, value: Lit, at: usize) -> Reading {
    match value {
        Lit::Str(s) => if r.opts.krate is Some {
            r.fault(at, None, ArgErrorKind::Duplicate(Attr::Crate))
        } else {
            Reading { opts: ConfigView { krate: Some(s@), ..r.opts }, ..r }
        },
        _ => r.fault(at, None, ArgErrorKind::ExpectedStringLiteral),
    }
}

/// Reads `name = value` where `name` is `crate`. Says whether it was.
pub fn krate(
    name: &String,
    value: &Lit,
    at: usize,
    errors: &mut Vec<ArgError>,
    opts: &mut Config,
) -> (r: bool)
    ensures
        r == (name@ == "crate"@),
        (Reading { opts: final(opts)@, errors: final(errors)@ }) == if r {
            krate_step(Reading { opts: old(opts)@, errors: old(errors)@ }, *value, at)
        } else {
            Reading { opts: old(opts)@, errors: old(errors)@ }
        },
{
    if is_word(name, "crate") {
        match value {
            Lit::Str(s) => {
                if opts.krate.is_some() {
                    push_fault(errors, at, None, ArgErrorKind::Duplicate(Attr::Crate));
                } else {
                    opts.krate = Some(s.clone());
                }
            },
            _ => {
                push_fault(errors, at, None, ArgErrorKind::ExpectedStringLiteral);
            },
        }
        true
    } else {
        false
    }
}

/// What `delay(..)` does. The list must start with an integer. One
/// that fits in 64 bits becomes the delay, and is a fault besides if
/// a delay was set before; one that does not fit is passed over.
pub open spec fn delay_step(r: Reading, items: Seq<Nested>, at: usize) -> Reading {
    if items.len() == 0 {
        r.fault(at, None, ArgErrorKind::ExpectedValue)
    } else {
        match items[0] {
            Nested::Lit(Lit::Int(Some(n))) => (Reading {
                opts: ConfigView { delay: Some(n), ..r.opts },
                ..r
            }).fault_if(r.opts.delay is Some, at, ArgErrorKind::Duplicate(Attr::Delay)),
            Nested::Lit(Lit::Int(None)) => r,
            Nested::Lit(_) => r.fault(at, Some(0), ArgErrorKind::ExpectedInteger),
            _ => r.fault(at, None, ArgErrorKind::ExpectedValue),
        }
    }
}

/// Reads `name(items)` where `name` is `delay`. Says whether it was.
pub fn delay(
    name: &String,
    items: &Vec<Nested>,
    at: usize,
    errors: &mut Vec<ArgError>,
    opts: &mut Config,
) -> (r: bool)
    ensures
        r == (name@ == "delay"@),
        (Reading { opts: final(opts)@, errors: final(errors)@ }) == if r {
            delay_step(Reading { opts: old(opts)@, errors: old(errors)@ }, items@, at)
        } else {
            Reading { opts: old(opts)@, errors: old(errors)@ }
        },
{
    if is_word(name, "delay") {
        if items.len() == 0 {
            push_fault(errors, at, None, ArgErrorKind::ExpectedValue);
        } else {
            match &items[0] {
                Nested::Lit(Lit::Int(Some(n))) => {
                    let was = opts.delay.is_some();
                    opts.delay = Some(*n);
                    if was {
                        push_fault(errors, at, None, ArgErrorKind::Duplicate(Attr::Delay));
                    }
                },
                Nested::Lit(Lit::Int(None)) => {},
                Nested::Lit(_) => {
                    push_fault(errors, at, Some(0), ArgErrorKind::ExpectedInteger);
                },
                _ => {
                    push_fault(errors, at, None, ArgErrorKind::ExpectedValue);
                },
            }
        }
        true
    } else {
        false
    }
}

/// The log options and the faults while the list of `log(..)` is
/// read.
pub struct LogReading {
    pub log: LogView,
    pub errors: Seq<ArgError>,
}

/// What one item of `log(..)` does. `color` sets colour, and is a
/// fault besides where it was set. `all` is taken and changes
/// nothing. `exclude(..)` sets the excluded targets to one empty
/// name, or is a fault where they were set. A path or list of more
/// than one word is passed over. Everything else is a fault.
pub open spec fn log_item_step(r: LogReading, item: Nested, at: usize, k: usize) -> LogReading {
    let unexpected = LogReading {
        errors: r.errors.push(ArgError { at, inner: Some(k), kind: ArgErrorKind::Unexpected }),
        ..r
    };
    match item {
        Nested::Path(Some(name)) => if name@ == "color"@ {
            LogReading {
                log: LogView { color: true, ..r.log },
                errors: if r.log.color {
                    r.errors.push(
                        ArgError {
                            at,
                            inner: Some(k),
                            kind: ArgErrorKind::Duplicate(Attr::Color),
                        },
                    )
                } else {
                    r.errors
                },
            }
        } else if name@ == "all"@ {
            r
        } else {
            unexpected
        },
        Nested::Path(None) => r,
        Nested::List(Some(name)) => if name@ == "exclude"@ {
            if r.log.exclude is Some {
                LogReading {
                    errors: r.errors.push(
                        ArgError {
                            at,
                            inner: Some(k),
                            kind: ArgErrorKind::Duplicate(Attr::Exclude),
                        },
                    ),
                    ..r
                }
            } else {
                LogReading {
                    log: LogView { exclude: Some(seq![Seq::<char>::empty()]), ..r.log },
                    ..r
                }
            }
        } else {
            unexpected
        },
        Nested::List(None) => r,
        _ => unexpected,
    }
}

/// What the first `n` items of `log(..)` do, one after the other.
pub open spec fn log_items(r: LogReading, items: Seq<Nested>, at: usize, n: nat) -> LogReading
    decreases n,
{
    if n == 0 {
        r
    } else {
        log_item_step(log_items(r, items, at, (n - 1) as nat), items[n - 1], at, (n - 1) as usize)
    }
}

/// What `log(..)` does: the list is read into fresh log options,
/// which then become the log options. That is a fault besides if
/// there were log options before.
pub open spec fn log_step(r: Reading, items: Seq<Nested>, at: usize) -> Reading {
    let read = log_items(
        LogReading { log: new_log(), errors: r.errors },
        items,
        at,
        items.len(),
    );
    (Reading { opts: ConfigView { log: Some(read.log), ..r.opts }, errors: read.errors }).fault_if(
        r.opts.log is Some,
        at,
        ArgErrorKind::Duplicate(Attr::Log),
    )
}

/// Reads one item of `log(..)`.
fn log_item(item: &Nested, at: usize, k: usize, errors: &mut Vec<ArgError>, log: &mut Log)
    ensures
        (LogReading { log: final(log)@, errors: final(errors)@ }) == log_item_step(
            LogReading { log: old(log)@, errors: old(errors)@ },
            *item,
            at,
            k,
        ),
{
    match item {
        Nested::Path(Some(name)) => {
            if is_word(name, "color") {
                if log.color {
                    push_fault(errors, at, Some(k), ArgErrorKind::Duplicate(Attr::Color));
                }
                log.color = true;
            } else if is_word(name, "all") {
            } else {
                push_fault(errors, at, Some(k), ArgErrorKind::Unexpected);
            }
        },
        Nested::Path(None) => {},
        Nested::List(Some(name)) => {
            if is_word(name, "exclude") {
                if log.exclude.is_some() {
                    push_fault(errors, at, Some(k), ArgErrorKind::Duplicate(Attr::Exclude));
                } else {
                    let mut names: Vec<String> = Vec::new();
                    names.push(String::new());
                    assert(names@.map_values(|s: String| s@) =~= seq![Seq::<char>::empty()]);
                    log.exclude = Some(names);
                }
            } else {
                push_fault(errors, at, Some(k), ArgErrorKind::Unexpected);
            }
        },
        Nested::List(None) => {},
        _ => {
            push_fault(errors, at, Some(k), ArgErrorKind::Unexpected);
        },
    }
}

/// Reads `name(items)` where `name` is `log`. Says whether it was.
pub fn log(
    name: &String,
    items: &Vec<Nested>,
    at: usize,
    errors: &mut Vec<ArgError>,
    opts: &mut Config,
) -> (r: bool)
    ensures
        r == (name@ == "log"@),
        (Reading { opts: final(opts)@, errors: final(errors)@ }) == if r {
            log_step(Reading { opts: old(opts)@, errors: old(errors)@ }, items@, at)
        } else {
            Reading { opts: old(opts)@, errors: old(errors)@ }
        },
{
    if is_word(name, "log") {
        let mut log = Log::new();
        let ghost start = LogReading { log: new_log(), errors: errors@ };
        let mut k: usize = 0;
        while k < items.len()
            invariant
                k <= items@.len(),
                opts@ == old(opts)@,
                (LogReading { log: log@, errors: errors@ }) == log_items(
                    start,
                    items@,
                    at,
                    k as nat,
                ),
            decreases items@.len() - k,
        {
            log_item(&items[k], at, k, errors, &mut log);
            k = k + 1;
        }
        let was = opts.log.is_some();
        opts.log = Some(log);
        if was {
            push_fault(errors, at, None, ArgErrorKind::Duplicate(Attr::Log));
        }
        true
    } else {
        false
    }
}

/// What a bare `delay` does: it is a fault, since `delay` takes a
/// value.
pub open spec fn bare_delay_step(r: Reading, at: usize) -> Reading {
    r.fault(at, None, ArgErrorKind::DelayNeedsValue)
}

/// Reads a bare `name` that is the name of an option with a value.
/// Says whether it was.
pub fn unexpected_as_path(
    name: &String,
    at: usize,
    errors: &mut Vec<ArgError>,
    opts: &mut Config,
) -> (r: bool)
    ensures
        r == (name@ == "delay"@),
        (Reading { opts: final(opts)@, errors: final(errors)@ }) == if r {
            bare_delay_step(Reading { opts: old(opts)@, errors: old(errors)@ }, at)
        } else {
            Reading { opts: old(opts)@, errors: old(errors)@ }
        },
{
    if is_word(name, "delay") {
        push_fault(errors, at, None, ArgErrorKind::DelayNeedsValue);
        true
    } else {
        false
    }
}

/// What a bare option does, or nothing where `name` is none: `log`
/// sets fresh log options, `alloc`, `alloc_error` and `panic` set
/// their flag, and each is a fault besides where it was set before.
pub open spec fn simple_step(r: Reading, name: Seq<char>, at: usize) -> Option<Reading> {
    if name == "log"@ {
        Some(
            (Reading { opts: ConfigView { log: Some(new_log()), ..r.opts }, ..r }).fault_if(
                r.opts.log is Some,
                at,
                ArgErrorKind::Duplicate(Attr::Log),
            ),
        )
    } else if name == "alloc"@ {
        Some(
            (Reading { opts: ConfigView { alloc: true, ..r.opts }, ..r }).fault_if(
                r.opts.alloc,
                at,
                ArgErrorKind::Duplicate(Attr::Alloc),
            ),
        )
    } else if name == "alloc_error"@ {
        Some(
            (Reading { opts: ConfigView { alloc_error: true, ..r.opts }, ..r }).fault_if(
                r.opts.alloc_error,
                at,
                ArgErrorKind::Duplicate(Attr::AllocError),
            ),
        )
    } else if name == "panic"@ {
        Some(
            (Reading { opts: ConfigView { panic: true, ..r.opts }, ..r }).fault_if(
                r.opts.panic,
                at,
                ArgErrorKind::Duplicate(Attr::Panic),
            ),
        )
    } else {
        None
    }
}

/// Reads a bare `name` that is an option. Says whether it was.
pub fn simple_opts(name: &String, at: usize, errors: &mut Vec<ArgError>, opts: &mut Config) -> (r:
    bool)
    ensures
        r == simple_step(Reading { opts: old(opts)@, errors: old(errors)@ }, name@, at) is Some,
        (Reading { opts: final(opts)@, errors: final(errors)@ }) == match simple_step(
            Reading { opts: old(opts)@, errors: old(errors)@ },
            name@,
            at,
        ) {
            Some(after) => after,
            None => Reading { opts: old(opts)@, errors: old(errors)@ },
        },
{
    if is_word(name, "log") {
        let was = opts.log.is_some();
        opts.log = Some(Log::new());
        if was {
            push_fault(errors, at, None, ArgErrorKind::Duplicate(Attr::Log));
        }
        true
    } else if is_word(name, "alloc") {
        if opts.alloc {
            push_fault(errors, at, None, ArgErrorKind::Duplicate(Attr::Alloc));
        }
        opts.alloc = true;
        true
    } else if is_word(name, "alloc_error") {
        if opts.alloc_error {
            push_fault(errors, at, None, ArgErrorKind::Duplicate(Attr::AllocError));
        }
        opts.alloc_error = true;
        true
    } else if is_word(name, "panic") {
        if opts.panic {
            push_fault(errors, at, None, ArgErrorKind::Duplicate(Attr::Panic));
        }
        opts.panic = true;
        true
    } else {
        false
    }
}

/// What one argument does.
pub open spec fn arg_step(r: Reading, arg: Arg, at: usize) -> Reading {
    match arg {
        Arg::NameValue { name: Some(name), value } => if name@ == "crate"@ {
            krate_step(r, value, at)
        } else {
            r.fault(at, None, ArgErrorKind::Unexpected)
        },
        Arg::List { name: Some(name), items } => if name@ == "delay"@ {
            delay_step(r, items@, at)
        } else if name@ == "log"@ {
            log_step(r, items@, at)
        } else {
            r.fault(at, None, ArgErrorKind::Unexpected)
        },
        Arg::Path { name: Some(name) } => match simple_step(r, name@, at) {
            Some(after) => after,
            None => if name@ == "delay"@ {
                bare_delay_step(r, at)
            } else {
                r.fault(at, None, ArgErrorKind::Unexpected)
            },
        },
        Arg::Lit(_) => r.fault(at, None, ArgErrorKind::UnknownLiteral),
        _ => r.fault(at, None, ArgErrorKind::Unexpected),
    }
}

/// What the first `n` arguments do, one after the other.
pub open spec fn args_read(r: Reading, args: Seq<Arg>, n: nat) -> Reading
    decreases n,
{
    if n == 0 {
        r
    } else {
        arg_step(args_read(r, args, (n - 1) as nat), args[n - 1], (n - 1) as usize)
    }
}

/// Reads the arguments in order into `opts`, and records every fault
/// in `errors`.
pub fn parse_args(args: &[Arg], errors: &mut Vec<ArgError>, opts: &mut Config)
    ensures
        (Reading { opts: final(opts)@, errors: final(errors)@ }) == args_read(
            Reading { opts: old(opts)@, errors: old(errors)@ },
            args@,
            args@.len(),
        ),
{
    let ghost start = Reading { opts: opts@, errors: errors@ };
    let mut at: usize = 0;
    while at < args.len()
        invariant
            at <= args@.len(),
            (Reading { opts: opts@, errors: errors@ }) == args_read(start, args@, at as nat),
        decreases args@.len() - at,
    {
        match &args[at] {
            Arg::NameValue { name: Some(name), value } => {
                if krate(name, value, at, errors, opts) {
                } else {
                    push_fault(errors, at, None, ArgErrorKind::Unexpected);
                }
            },
            Arg::List { name: Some(name), items } => {
                if delay(name, items, at, errors, opts) {
                } else if log(name, items, at, errors, opts) {
                } else {
                    push_fault(errors, at, None, ArgErrorKind::Unexpected);
                }
            },
            Arg::Path { name: Some(name) } => {
                if simple_opts(name, at, errors, opts) {
                } else if unexpected_as_path(name, at, errors, opts) {
                } else {
                    push_fault(errors, at, None, ArgErrorKind::Unexpected);
                }
            },
            Arg::Lit(_) => {
                push_fault(errors, at, None, ArgErrorKind::UnknownLiteral);
            },
            _ => {
                push_fault(errors, at, None, ArgErrorKind::Unexpected);
            },
        }
        at = at + 1;
    }
}

/// A parameter of the function that the attribute marks.
#[derive(Clone, Copy, Debug, PartialEq, Eq, Structural)]
pub enum Param {
    /// `self` in any form.
    Receiver,
    /// A parameter whose pattern is one name.
    Named,
    /// A parameter with any other pattern.
    Pattern,
}

/// What is wrong with the signature of the marked function.
#[derive(Clone, Copy, Debug, PartialEq, Eq, Structural)]
pub enum SigErrorKind {
    /// The function takes nothing. It must take a handle and a table.
    IncorrectSignature,
    /// The function takes one parameter: the table is missing.
    MissingTable,
    /// A parameter behind the second.
    Unexpected,
    /// A parameter behind the second that has a name.
    UnexpectedNamed,
    /// One of the first two parameters is `self`.
    CannotBeMethod,
}

/// A fault in the signature, with the place of the parameter that
/// caused it, or no place where it is about the whole signature.
#[derive(Clone, Copy, Debug, PartialEq, Eq, Structural)]
pub struct SigError {
    pub at: Option<usize>,
    pub kind: SigErrorKind,
}

/// The fault that the parameter at `at` is, given that it stands
/// behind the second.
pub open spec fn extra_fault(params: Seq<Param>, at: int) -> SigError {
    SigError {
        at: Some(at as usize),
        kind: if params[at] == Param::Named {
            SigErrorKind::UnexpectedNamed
        } else {
            SigErrorKind::Unexpected
        },
    }
}

/// The fault of being a method, where the parameter at `at` is one
/// of the first two and is `self`.
pub open spec fn method_fault(params: Seq<Param>, at: int) -> Seq<SigError> {
    if at < params.len() && params[at] == Param::Receiver {
        seq![SigError { at: Some(at as usize), kind: SigErrorKind::CannotBeMethod }]
    } else {
        Seq::empty()
    }
}

/// The faults of a signature with these parameters, in the order in
/// which they are reported: first what is wrong with their number,
/// then each parameter behind the second, then each of the first two
/// that is `self`.
pub open spec fn signature_faults(params: Seq<Param>) -> Seq<SigError> {
    let count = if params.len() == 0 {
        seq![SigError { at: None, kind: SigErrorKind::IncorrectSignature }]
    } else if params.len() == 1 {
        seq![SigError { at: Some(0), kind: SigErrorKind::MissingTable }]
    } else {
        Seq::empty()
    };
    let extras = Seq::new(
        if params.len() > 2 {
            (params.len() - 2) as nat
        } else {
            0
        },
        |i: int| extra_fault(params, i + 2),
    );
    count + extras + method_fault(params, 0) + method_fault(params, 1)
}

/// Checks the parameters of the marked function: it must take two,
/// and neither may be `self`.
pub fn check_signature(params: &[Param]) -> (r: Vec<SigError>)
    ensures
        r@ == signature_faults(params@),
{
    let mut errors: Vec<SigError> = Vec::new();
    let n: usize = params.len();
    if n == 0 {
        errors.push(SigError { at: None, kind: SigErrorKind::IncorrectSignature });
    }
    if n == 1 {
        errors.push(SigError { at: Some(0), kind: SigErrorKind::MissingTable });
    }
    let ghost count = errors@;
    let mut i: usize = 2;
    while i < n
        invariant
            n == params@.len(),
            2 <= i,
            i <= n || n < 2,
            errors@ == count + Seq::new(
                if i <= n {
                    (i - 2) as nat
                } else {
                    0
                },
                |j: int| extra_fault(params@, j + 2),
            ),
        decreases n - i,
    {
        let kind = match params[i] {
            Param::Named => SigErrorKind::UnexpectedNamed,
            _ => SigErrorKind::Unexpected,
        };
        errors.push(SigError { at: Some(i), kind });
        i = i + 1;
        assert(errors@ =~= count + Seq::new((i - 2) as nat, |j: int| extra_fault(params@, j + 2)));
    }
    let ghost extras = errors@;
    let mut k: usize = 0;
    while k < 2
        invariant
            k <= 2,
            n == params@.len(),
            errors@ == extras + (if k >= 1 {
                method_fault(params@, 0)
            } else {
                Seq::empty()
            }) + (if k >= 2 {
                method_fault(params@, 1)
            } else {
                Seq::empty()
            }),
        decreases 2 - k,
    {
        if k < n {
            match params[k] {
                Param::Receiver => {
                    errors.push(SigError { at: Some(k), kind: SigErrorKind::CannotBeMethod });
                },
                _ => {},
            }
        }
        k = k + 1;
        assert(errors@ =~= extras + (if k >= 1 {
            method_fault(params@, 0)
        } else {
            Seq::empty()
        }) + (if k >= 2 {
            method_fault(params@, 1)
        } else {
            Seq::empty()
        }));
    }
    assert(errors@ =~= signature_faults(params@));
    errors
}

/// What is generated around the marked function.
#[derive(Clone, Debug, PartialEq, Eq)]
pub struct EntryPlan {
    /// The name under which the generated code reaches the library.
    pub krate: String,
    /// Seconds to wait before the image goes back to the firmware.
    pub exit_delay: Option<u64>,
    /// Whether a panic handler is generated.
    pub panic_handler: bool,
    /// Whether a handler for failed allocations is generated.
    pub alloc_error_handler: bool,
    /// Whether the allocator is registered.
    pub allocator: bool,
}

impl Config {
    /// What is to be generated for these options. Where no name is
    /// given for the library, it is `nuefi`.
    pub fn plan(&self) -> (r: EntryPlan)
        ensures
            r.krate@ == match self@.krate {
                Some(name) => name,
                None => "nuefi"@,
            },
            r.exit_delay == self@.delay,
            r.panic_handler == self@.panic,
            r.alloc_error_handler == self@.alloc_error,
            r.allocator == self@.alloc,
    {
        let krate = match &self.krate {
            Some(name) => name.clone(),
            None => "nuefi".to_owned(),
        };
        EntryPlan {
            krate,
            exit_delay: self.delay,
            panic_handler: self.panic,
            alloc_error_handler: self.alloc_error,
            allocator: self.alloc,
        }
    }
}

} // verus!
