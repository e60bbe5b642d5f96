//! The arguments of the attribute that declares a protocol, and
//! what is checked of the structure that it marks.
use vstd::prelude::*;
use crate::attr::{Arg, ArgError, ArgErrorKind, Lit};
use crate::guid::{uuid_parse_me, Guid};

verus! {

/// What is wrong with a protocol's declaration as a whole.
#[derive(Clone, Copy, Debug, PartialEq, Eq, Structural)]
pub enum ProtoError {
    /// No identifier was given, or the structure has no field to
    /// take the layout from.
    MissingGuid,
    /// The text given is no identifier.
    InvalidGuid,
    /// The first field does not have the shape of an interface. The
    /// number says which shape it missed.
    InvalidType(u8),
}

/// What the arguments of the attribute set.
#[derive(Clone, Debug, PartialEq, Eq)]
pub struct ProtoConfig {
    /// The name under which the library is known.
    pub krate: String,
    /// The identifier of the protocol, as text.
    pub guid: Option<String>,
}

/// What a `ProtoConfig` holds.
pub struct ProtoConfigView {
    pub krate: Seq<char>,
    pub guid: Option<Seq<char>>,
}

impl View for ProtoConfig {
    type V = ProtoConfigView;

    open spec fn view(&self) -> ProtoConfigView {
        ProtoConfigView {
            krate: self.krate@,
            guid: match self.guid {
                Some(g) => Some(g@),
                None => None,
            },
        }
    }
}

/// The options read so far and the faults found so far.
pub struct ProtoReading {
    pub opts: ProtoConfigView,
    pub errors: Seq<ArgError>,
}

impl ProtoReading {
    /// The reading with one more fault.
    pub open spec fn fault(self, at: usize, kind: ArgErrorKind) -> ProtoReading {
        ProtoReading { errors: self.errors.push(ArgError { at, inner: None, kind }), ..self }
    }
}

/// What one argument does. `crate = "name"` sets the name of the
/// library, each time it is given. A string sets the identifier, and
/// is a fault besides where one was set. Everything else is a fault.
pub open spec fn proto_arg_step(r: ProtoReading, arg: Arg, at: usize) -> ProtoReading {
    match arg {
        Arg::NameValue { name: Some(name), value } => if name@ == "crate"@ {
            match value {
                Lit::Str(s) => ProtoReading {
                    opts: ProtoConfigView { krate: s@, ..r.opts },
                    ..r
                },
                _ => r.fault(at, ArgErrorKind::ExpectedStringLiteral),
            }
        } else {
            r.fault(at, ArgErrorKind::Unexpected)
        },
        Arg::Lit(Lit::Str(s)) => {
            let set = ProtoReading { opts: ProtoConfigView { guid: Some(s@), ..r.opts }, ..r };
            if r.opts.guid is Some {
                set.fault(at, ArgErrorKind::DuplicateGuid)
            } else {
                set
            }
        },
        Arg::Lit(_) => r.fault(at, ArgErrorKind::UnknownLiteral),
        _ => r.fault(at, ArgErrorKind::Unexpected),
    }
}

/// What the first `n` arguments do, one after the other.
pub open spec fn proto_args_read(r: ProtoReading, args: Seq<Arg>, n: nat) -> ProtoReading
    decreases n,
{
    if n == 0 {
        r
    } else {
        proto_arg_step(proto_args_read(r, args, (n - 1) as nat), args[n - 1], (n - 1) as usize)
    }
}

impl ProtoConfig {
    /// The options before any was read: the library is known as
    /// `uefi`, and there is no identifier.
    pub fn new() -> (r: Self)
        ensures
            r@ == (ProtoConfigView { krate: "uefi"@, guid: None }),
    {
        ProtoConfig { krate: "uefi".to_owned(), guid: None }
    }

    /// The identifier that the arguments gave.
    pub fn resolve_guid(&self) -> (r: Result<Guid, ProtoError>)
        ensures
            match self@.guid {
                None => r == Err::<Guid, _>(ProtoError::MissingGuid),
                Some(text) => match uuid_parse_me(text) {
                    Some(bytes) => r is Ok && r->Ok_0@ == bytes,
                    None => r == Err::<Guid, _>(ProtoError::InvalidGuid),
                },
            },
    {
        match &self.guid {
            None => Err(ProtoError::MissingGuid),
            Some(text) => match Guid::parse(text.as_str()) {
                Ok(guid) => Ok(guid),
                Err(_) => Err(ProtoError::InvalidGuid),
            },
        }
    }
}

/// Reads the arguments in order into `opts`, and records every fault
/// in `errors`.
pub fn parse_args(args: &[Arg], errors: &mut Vec<ArgError>, opts: &mut ProtoConfig)
    ensures
        (ProtoReading { opts: final(opts)@, errors: final(errors)@ }) == proto_args_read(
            ProtoReading { opts: old(opts)@, errors: old(errors)@ },
            args@,
            args@.len(),
        ),
{
    let ghost start = ProtoReading { opts: opts@, errors: errors@ };
    let mut at: usize = 0;
    while at < args.len()
        invariant
            at <= args@.len(),
            (ProtoReading { opts: opts@, errors: errors@ }) == proto_args_read(
                start,
                args@,
                at as nat,
            ),
        decreases args@.len() - at,
    {
        let ghost before = ProtoReading { opts: opts@, errors: errors@ };
        match &args[at] {
            Arg::NameValue { name: Some(name), value } => {
                let word = "crate".to_owned();
                if *name == word {
                    match value {
                        Lit::Str(s) => {
                            opts.krate = s.clone();
                        },
                        _ => {
                            errors.push(
                                ArgError {
                                    at,
                                    inner: None,
                                    kind: ArgErrorKind::ExpectedStringLiteral,
                                },
                            );
                        },
                    }
                } else {
                    errors.push(ArgError { at, inner: None, kind: ArgErrorKind::Unexpected });
                }
            },
            Arg::Lit(Lit::Str(s)) => {
                let was = opts.guid.is_some();
                opts.guid = Some(s.clone());
                if was {
                    errors.push(ArgError { at, inner: None, kind: ArgErrorKind::DuplicateGuid });
                }
            },
            Arg::Lit(_) => {
                errors.push(ArgError { at, inner: None, kind: ArgErrorKind::UnknownLiteral });
            },
            _ => {
                errors.push(ArgError { at, inner: None, kind: ArgErrorKind::Unexpected });
            },
        }
        assert((ProtoReading { opts: opts@, errors: errors@ }) == proto_arg_step(
            before,
            args@[at as int],
            at,
        ));
        at = at + 1;
    }
}

/// What stands behind a pointer in a field's type.
#[derive(Clone, Copy, Debug, PartialEq, Eq, Structural)]
pub enum Pointee {
    /// A path. `single` says whether it is one word.
    Path { single: bool },
    /// A group around a path.
    GroupedPath { single: bool },
    /// A group around anything else.
    GroupedOther,
    /// Anything else.
    Other,
}

/// The shape of a field's type.
#[derive(Clone, Copy, Debug, PartialEq, Eq, Structural)]
pub enum TypeShape {
    /// A path. `single` says whether it is one word.
    Path { single: bool },
    /// A pointer.
    Ptr(Pointee),
    /// Anything else.
    Other,
}

/// The fields of the marked structure, as far as they matter: the
/// shape of the first one's type.
#[derive(Clone, Copy, Debug, PartialEq, Eq, Structural)]
pub enum Fields {
    Named(Option<TypeShape>),
    Unnamed(Option<TypeShape>),
    Unit,
}

/// What is wrong with a type as the layout of an interface, if
/// anything: it must be one word, or a pointer to one word, which may
/// stand in a group.
pub open spec fn type_fault(shape: TypeShape) -> Option<ProtoError> {
    match shape {
        TypeShape::Path { single } | TypeShape::Ptr(Pointee::Path { single }) | TypeShape::Ptr(
            Pointee::GroupedPath { single },
        ) => if single {
            None
        } else {
            Some(ProtoError::InvalidType(1))
        },
        TypeShape::Ptr(Pointee::GroupedOther) => Some(ProtoError::InvalidType(4)),
        TypeShape::Ptr(Pointee::Other) => Some(ProtoError::InvalidType(2)),
        TypeShape::Other => Some(ProtoError::InvalidType(3)),
    }
}

/// What is wrong with the fields of the marked structure, if
/// anything: there must be a first field, and its type must have the
/// shape of an interface.
pub open spec fn fields_fault(fields: Fields) -> Option<ProtoError> {
    match fields {
        Fields::Named(Some(shape)) | Fields::Unnamed(Some(shape)) => type_fault(shape),
        _ => Some(ProtoError::MissingGuid),
    }
}

/// Checks the type of the first field.
pub fn check_type(shape: TypeShape) -> (r: Option<ProtoError>)
    ensures
        r == type_fault(shape),
{
    match shape {
        TypeShape::Path { single } => if single {
            None
        } else {
            Some(ProtoError::InvalidType(1))
        },
        TypeShape::Ptr(Pointee::Path { single }) => if single {
            None
        } else {
            Some(ProtoError::InvalidType(1))
        },
        TypeShape::Ptr(Pointee::GroupedPath { single }) => if single {
            None
        } else {
            Some(ProtoError::InvalidType(1))
        },
        TypeShape::Ptr(Pointee::GroupedOther) => Some(ProtoError::InvalidType(4)),
        TypeShape::Ptr(Pointee::Other) => Some(ProtoError::InvalidType(2)),
        TypeShape::Other => Some(ProtoError::InvalidType(3)),
    }
}

/// Checks the fields of the marked structure.
pub fn check_fields(fields: Fields) -> (r: Option<ProtoError>)
    ensures
        r == fields_fault(fields),
{
    match fields {
        Fields::Named(Some(shape)) => check_type(shape),
        Fields::Unnamed(Some(shape)) => check_type(shape),
        _ => Some(ProtoError::MissingGuid),
    }
}

} // verus!
