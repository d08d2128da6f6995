use lettre::address::AddressError;
use lettre::error::Error as LettreError;
use lettre::transport::smtp::Error as SmtpError;
use std::fmt::Write;
use std::io::Error as IoError;
use vstd::prelude::*;
use vstd::std_specs::convert::FromSpec;

verus! {

#[verifier::external_type_specification]
#[verifier::external_body]
pub struct ExSmtpError(SmtpError);

/// Verus sees the variants of lettre's message-construction error, so that
/// the fixed sentences it prints can be stated.
#[verifier::external_type_specification]
pub struct ExLettreError(LettreError);

/// The I/O error that lettre's message-construction error can carry.
#[verifier::external_type_specification]
#[verifier::external_body]
pub struct ExIoError(IoError);

/// Address errors are a plain enum of unit variants, so Verus sees them whole.
#[verifier::external_type_specification]
pub struct ExAddressError(AddressError);

/// The sentence that lettre's `Display` writes for a message-construction
/// error; `None` for an I/O error, whose text is the I/O error's own and is
/// not fixed by the value.
pub open spec fn lettre_error_text(e: LettreError) -> Option<Seq<char>> {
    match e {
        LettreError::MissingFrom => Some("missing source address, invalid envelope"@),
        LettreError::MissingTo => Some("missing destination address, invalid envelope"@),
        LettreError::TooManyFrom => Some("there can only be one source address"@),
        LettreError::EmailMissingAt => Some("missing @ in email address"@),
        LettreError::EmailMissingLocalPart => Some("missing local part in email address"@),
        LettreError::EmailMissingDomain => Some("missing domain in email address"@),
        LettreError::CannotParseFilename => Some("could not parse attachment filename"@),
        LettreError::NonAsciiChars => Some("contains non-ASCII chars"@),
        LettreError::Io(_) => None,
    }
}

/// The text that lettre's `Display` writes for an address error.
pub open spec fn address_error_text(e: AddressError) -> Seq<char> {
    match e {
        AddressError::MissingParts => "Missing domain or user"@,
        AddressError::Unbalanced => "Unbalanced angle bracket"@,
        AddressError::InvalidUser => "Invalid email user"@,
        AddressError::InvalidDomain => "Invalid email domain"@,
        // `InvalidInput`, the one variant left; the enum is marked non-exhaustive.
        _ => "Invalid input"@,
    }
}

/// Relies on `Display` for lettre's `transport::smtp::Error`. Its text
/// includes that of the error's source, which may come from the operating
/// system, so nothing is stated of it. A failing write leaves what was written.
#[verifier::external_body]
fn smtp_text(e: &SmtpError) -> (r: String) {
    let mut r = String::new();
    let _ = write!(r, "{}", e);
    r
}

/// Relies on `Display` for lettre's `error::Error`: one fixed sentence for
/// each variant but `Io`, which writes the I/O error's own text. A failing
/// write leaves what was written.
#[verifier::external_body]
fn lettre_text(e: &LettreError) -> (r: String)
    ensures
        lettre_error_text(*e) matches Some(t) ==> r@ == t,
{
    let mut r = String::new();
    let _ = write!(r, "{}", e);
    r
}

/// Relies on `Display` for lettre's `address::AddressError`, which writes one
/// fixed sentence for each variant.
#[verifier::external_body]
fn address_text(e: &AddressError) -> (r: String)
    ensures
        r@ == address_error_text(*e),
{
    e.to_string()
}

/// Any failure met while sending mail: one of lettre's three error kinds, or a
/// configuration problem found before lettre was reached.
#[derive(Debug)]
pub enum Error {
    /// The SMTP transport failed: connection, authentication or protocol.
    Smtp(SmtpError),
    /// The message could not be built.
    Lettre(LettreError),
    /// An address could not be parsed.
    Address(AddressError),
    /// A required setting is missing or invalid.
    Config(&'static str),
}

/// The error one level down from an [`Error`]: the lettre error it wraps.
#[derive(Debug)]
pub enum Cause<'a> {
    /// The SMTP transport's error.
    Smtp(&'a SmtpError),
    /// The message-construction error.
    Lettre(&'a LettreError),
    /// The address error.
    Address(&'a AddressError),
}

/// The result of an operation that can fail with [`Error`].
pub type Result<T> = core::result::Result<T, Error>;

impl Error {
    /// The label that starts the text of each kind of error.
    pub open spec fn label(&self) -> Seq<char> {
        match self {
            Error::Smtp(_) => "SMTP error"@,
            Error::Lettre(_) => "Lettre error"@,
            Error::Address(_) => "Address error"@,
            Error::Config(_) => "Configuration error"@,
        }
    }

    /// The text of what went wrong, where the value fixes it: the text of an
    /// address error or of a message-construction error other than I/O, or
    /// the configuration message. `None` for an SMTP error or an I/O error,
    /// whose text may come from the operating system.
    pub open spec fn detail(&self) -> Option<Seq<char>> {
        match self {
            Error::Smtp(_) => None,
            Error::Lettre(e) => lettre_error_text(*e),
            Error::Address(e) => Some(address_error_text(*e)),
            Error::Config(msg) => Some(msg@),
        }
    }

    /// Writes this error's label, a colon and a space, then `detail`.
    pub fn labelled(&self, detail: &str) -> (r: String)
        ensures
            r@ == self.label() + ": "@ + detail@,
    {
        let label = match self {
            Error::Smtp(_) => "SMTP error: ",
            Error::Lettre(_) => "Lettre error: ",
            Error::Address(_) => "Address error: ",
            Error::Config(_) => "Configuration error: ",
        };
        proof {
            reveal_strlit("SMTP error: ");
            reveal_strlit("SMTP error");
            reveal_strlit("Lettre error: ");
            reveal_strlit("Lettre error");
            reveal_strlit("Address error: ");
            reveal_strlit("Address error");
            reveal_strlit("Configuration error: ");
            reveal_strlit("Configuration error");
            reveal_strlit(": ");
        }
        let r = String::from_str(label).concat(detail);
        assert(r@ =~= self.label() + ": "@ + detail@);
        r
    }

    /// Formats the error as its label, a colon and a space, then the wrapped
    /// error's text or the configuration message.
    pub fn to_string(&self) -> (r: String)
        ensures
            r@.take(self.label().len() as int + 2) == self.label() + ": "@,
            self.detail() matches Some(d) ==> r@ == self.label() + ": "@ + d,
    {
        let detail = match self {
            Error::Smtp(e) => smtp_text(e),
            Error::Lettre(e) => lettre_text(e),
            Error::Address(e) => address_text(e),
            Error::Config(msg) => String::from_str(*msg),
        };
        let r = self.labelled(detail.as_str());
        proof {
            lemma_labelled_splits(*self, detail@);
        }
        r
    }

    /// The wrapped lettre error, unchanged; `None` for a configuration error,
    /// which has no cause.
    pub fn source(&self) -> (r: Option<Cause<'_>>)
        ensures
            match *self {
                Error::Smtp(e) => r == Some(Cause::Smtp(&e)),
                Error::Lettre(e) => r == Some(Cause::Lettre(&e)),
                Error::Address(e) => r == Some(Cause::Address(&e)),
                Error::Config(_) => r is None,
            },
    {
        match self {
            Error::Smtp(e) => Some(Cause::Smtp(e)),
            Error::Lettre(e) => Some(Cause::Lettre(e)),
            Error::Address(e) => Some(Cause::Address(e)),
            Error::Config(_) => None,
        }
    }
}

impl From<SmtpError> for Error {
    fn from(e: SmtpError) -> (r: Error)
        ensures
            r == Error::Smtp(e),
    {
        Error::Smtp(e)
    }
}

impl vstd::std_specs::convert::FromSpecImpl<SmtpError> for Error {
    open spec fn obeys_from_spec() -> bool {
        true
    }

    open spec fn from_spec(e: SmtpError) -> Error {
        Error::Smtp(e)
    }
}

impl From<LettreError> for Error {
    fn from(e: LettreError) -> (r: Error)
        ensures
            r == Error::Lettre(e),
    {
        Error::Lettre(e)
    }
}

impl vstd::std_specs::convert::FromSpecImpl<LettreError> for Error {
    open spec fn obeys_from_spec() -> bool {
        true
    }

    open spec fn from_spec(e: LettreError) -> Error {
        Error::Lettre(e)
    }
}

impl From<AddressError> for Error {
    fn from(e: AddressError) -> (r: Error)
        ensures
            r == Error::Address(e),
    {
        Error::Address(e)
    }
}

impl vstd::std_specs::convert::FromSpecImpl<AddressError> for Error {
    open spec fn obeys_from_spec() -> bool {
        true
    }

    open spec fn from_spec(e: AddressError) -> Error {
        Error::Address(e)
    }
}

/// A labelled text begins with the error's label and `": "`, and what
/// follows is exactly the detail it was given.
pub proof fn lemma_labelled_splits(e: Error, d: Seq<char>)
    ensures
        (e.label() + ": "@ + d).take(e.label().len() as int + 2) == e.label() + ": "@,
        (e.label() + ": "@ + d).skip(e.label().len() as int + 2) == d,
{
    reveal_strlit(": ");
    assert((e.label() + ": "@ + d).take(e.label().len() as int + 2) =~= e.label() + ": "@);
    assert((e.label() + ": "@ + d).skip(e.label().len() as int + 2) =~= d);
}

/// Converting a lettre error into an [`Error`] gives the same value, and so
/// the same label, detail and cause, as wrapping it in its variant by hand.
pub proof fn lemma_from_matches_variant(s: SmtpError, l: LettreError, a: AddressError)
    ensures
        <Error as FromSpec<SmtpError>>::from_spec(s) == Error::Smtp(s),
        <Error as FromSpec<SmtpError>>::from_spec(s).label() == Error::Smtp(s).label(),
        <Error as FromSpec<SmtpError>>::from_spec(s).detail() == Error::Smtp(s).detail(),
        <Error as FromSpec<LettreError>>::from_spec(l) == Error::Lettre(l),
        <Error as FromSpec<LettreError>>::from_spec(l).label() == Error::Lettre(l).label(),
        <Error as FromSpec<LettreError>>::from_spec(l).detail() == Error::Lettre(l).detail(),
        <Error as FromSpec<AddressError>>::from_spec(a) == Error::Address(a),
        <Error as FromSpec<AddressError>>::from_spec(a).label() == Error::Address(a).label(),
        <Error as FromSpec<AddressError>>::from_spec(a).detail() == Error::Address(a).detail(),
{
}

} // verus!
