use vstd::prelude::*;

verus! {

/// Faults of the board as a whole.
#[derive(Clone, Copy, Debug, PartialEq, Eq, Structural)]
pub enum CansatError {
    I2C,
    Unknown,
    IntegerOverflow,
    InterfaceError,
}

/// Faults of the environmental sensor.
#[derive(Clone, Copy, Debug, PartialEq, Eq, Structural)]
pub enum BMEError {
    DataErr,
    InterfaceError,
    InitialisationError,
    DelayError,
    TimeoutError,
    Ack,
}

/// Faults of the inertial sensor.
#[derive(Clone, Copy, Debug, PartialEq, Eq, Structural)]
pub enum MpuError {
    InitFailed,
    ReadoutFailed,
}

/// Faults of the text display.
#[derive(Clone, Copy, Debug, PartialEq, Eq, Structural)]
pub enum DisplayError {
    /// Display initialisation failed
    InitFailed,
    /// The display was used before initialisation
    Uninitialised,
    /// An error occurred while attempting to write to the screen
    WriteError,
    /// A write location was specified outside of the screen
    OutOfBounds,
    /// An error with the underlying interface of the display
    InterfaceError,
    /// An error while clearing the display's screen
    ClearError,
    /// An error while formatting text
    FormatError,
}

/// The failures that the environmental sensor's driver reports.
#[derive(Clone, Copy, Debug, PartialEq, Eq, Structural)]
pub enum Bme280Fault {
    /// A raw measurement could not be compensated.
    CompensationFailed,
    /// The bus transfer failed.
    Bus,
    /// The sensor sent data that could not be parsed.
    InvalidData,
    /// No calibration data was read from the sensor.
    NoCalibrationData,
    /// The chip identifier is not that of a supported sensor.
    UnsupportedChip,
    /// The delay provider failed.
    Delay,
}

/// The failures that the display's text mode reports.
#[derive(Clone, Copy, Debug, PartialEq, Eq, Structural)]
pub enum TerminalFault {
    /// The interface under the display failed.
    InterfaceError,
    /// The text mode was used before it was initialised.
    Uninitialized,
    /// A location outside the screen was given.
    OutOfBounds,
}

/// The formatter's error type, which carries no data.
#[verifier::external_type_specification]
#[verifier::external_body]
pub struct ExFmtError(core::fmt::Error);

/// The sensor fault kind that each driver failure is classified as.
pub open spec fn bme_kind(f: Bme280Fault) -> BMEError {
    match f {
        Bme280Fault::CompensationFailed => BMEError::DataErr,
        Bme280Fault::Bus => BMEError::InterfaceError,
        Bme280Fault::InvalidData => BMEError::DataErr,
        Bme280Fault::NoCalibrationData => BMEError::InitialisationError,
        Bme280Fault::UnsupportedChip => BMEError::InitialisationError,
        Bme280Fault::Delay => BMEError::DelayError,
    }
}

/// The display fault kind that each text-mode failure is classified as.
pub open spec fn display_kind(f: TerminalFault) -> DisplayError {
    match f {
        TerminalFault::InterfaceError => DisplayError::InterfaceError,
        TerminalFault::Uninitialized => DisplayError::Uninitialised,
        TerminalFault::OutOfBounds => DisplayError::OutOfBounds,
    }
}

impl From<Bme280Fault> for BMEError {
    fn from(f: Bme280Fault) -> (r: BMEError)
        ensures
            r == bme_kind(f),
    {
        match f {
            Bme280Fault::CompensationFailed => BMEError::DataErr,
            Bme280Fault::Bus => BMEError::InterfaceError,
            Bme280Fault::InvalidData => BMEError::DataErr,
            Bme280Fault::NoCalibrationData => BMEError::InitialisationError,
            Bme280Fault::UnsupportedChip => BMEError::InitialisationError,
            Bme280Fault::Delay => BMEError::DelayError,
        }
    }
}

impl vstd::std_specs::convert::FromSpecImpl<Bme280Fault> for BMEError {
    open spec fn obeys_from_spec() -> bool {
        true
    }

    open spec fn from_spec(f: Bme280Fault) -> BMEError {
        bme_kind(f)
    }
}

impl From<TerminalFault> for DisplayError {
    fn from(f: TerminalFault) -> (r: DisplayError)
        ensures
            r == display_kind(f),
    {
        match f {
            TerminalFault::InterfaceError => DisplayError::InterfaceError,
            TerminalFault::Uninitialized => DisplayError::Uninitialised,
            TerminalFault::OutOfBounds => DisplayError::OutOfBounds,
        }
    }
}

impl vstd::std_specs::convert::FromSpecImpl<TerminalFault> for DisplayError {
    open spec fn obeys_from_spec() -> bool {
        true
    }

    open spec fn from_spec(f: TerminalFault) -> DisplayError {
        display_kind(f)
    }
}

impl From<core::fmt::Error> for DisplayError {
    fn from(e: core::fmt::Error) -> (r: DisplayError)
        ensures
            r == DisplayError::FormatError,
    {
        DisplayError::FormatError
    }
}

impl vstd::std_specs::convert::FromSpecImpl<core::fmt::Error> for DisplayError {
    open spec fn obeys_from_spec() -> bool {
        true
    }

    open spec fn from_spec(e: core::fmt::Error) -> DisplayError {
        DisplayError::FormatError
    }
}

/// The classification table of driver failures, one pair per line.
pub open spec fn bme_classifies(f: Bme280Fault, k: BMEError) -> bool {
    ||| f == Bme280Fault::CompensationFailed && k == BMEError::DataErr
    ||| f == Bme280Fault::Bus && k == BMEError::InterfaceError
    ||| f == Bme280Fault::InvalidData && k == BMEError::DataErr
    ||| f == Bme280Fault::NoCalibrationData && k == BMEError::InitialisationError
    ||| f == Bme280Fault::UnsupportedChip && k == BMEError::InitialisationError
    ||| f == Bme280Fault::Delay && k == BMEError::DelayError
}

/// The classification table of text-mode failures, one pair per line.
pub open spec fn display_classifies(f: TerminalFault, k: DisplayError) -> bool {
    ||| f == TerminalFault::InterfaceError && k == DisplayError::InterfaceError
    ||| f == TerminalFault::Uninitialized && k == DisplayError::Uninitialised
    ||| f == TerminalFault::OutOfBounds && k == DisplayError::OutOfBounds
}

/// Every failure of the sensor driver is classified as exactly one kind,
/// the one that the conversion gives.
pub proof fn lemma_bme_classification_exact(f: Bme280Fault)
    ensures
        bme_classifies(f, bme_kind(f)),
        forall|k: BMEError| bme_classifies(f, k) ==> k == bme_kind(f),
{
}

/// Every failure of the display's text mode is classified as exactly one
/// kind, the one that the conversion gives; no two failures share a kind.
pub proof fn lemma_display_classification_exact(f: TerminalFault)
    ensures
        display_classifies(f, display_kind(f)),
        forall|k: DisplayError| display_classifies(f, k) ==> k == display_kind(f),
        forall|g: TerminalFault| display_kind(g) == display_kind(f) ==> g == f,
{
}

/// A fault kind of any component.
#[derive(Clone, Copy, Debug, PartialEq, Eq, Structural)]
pub enum ErrorKind {
    Cansat(CansatError),
    Bme(BMEError),
    Mpu(MpuError),
    Display(DisplayError),
}

/// The cause list after `kind` was added to the error whose list was
/// `causes`: the added kind becomes the outermost, read first, and every
/// earlier kind follows it in its order.
pub open spec fn chained(causes: Seq<ErrorKind>, kind: ErrorKind) -> Seq<ErrorKind> {
    seq![kind] + causes
}

/// An error with its cause list, read outermost first: the kind added last
/// stands first and the kind the error started as stands last.
#[derive(Clone, Debug)]
pub struct ErrorChain {
    kinds: Vec<ErrorKind>,
}

impl View for ErrorChain {
    type V = Seq<ErrorKind>;

    closed spec fn view(&self) -> Seq<ErrorKind> {
        self.kinds@
    }
}

impl ErrorChain {
    /// A chain holds at least the kind it started as.
    pub open spec fn wf(&self) -> bool {
        self@.len() > 0
    }

    /// An error of kind `kind`, with no cause.
    pub fn new(kind: ErrorKind) -> (r: ErrorChain)
        ensures
            r.wf(),
            r@ == seq![kind],
    {
        let mut kinds: Vec<ErrorKind> = Vec::new();
        kinds.push(kind);
        ErrorChain { kinds }
    }

    /// The same error, handled further and now of kind `kind`, with the
    /// error so far as its cause.
    pub fn chain(self, kind: ErrorKind) -> (r: ErrorChain)
        requires
            self.wf(),
        ensures
            r.wf(),
            r@ == chained(self@, kind),
    {
        let mut kinds = self.kinds;
        kinds.insert(0, kind);
        assert(kinds@ =~= chained(self@, kind));
        ErrorChain { kinds }
    }

    /// The same error, after handling it failed with `cause`: the whole list
    /// of `cause` follows that of this error.
    pub fn extend(self, cause: &ErrorChain) -> (r: ErrorChain)
        requires
            self.wf(),
        ensures
            r.wf(),
            r@ == self@ + cause@,
    {
        let mut kinds = self.kinds;
        let mut i: usize = 0;
        while i < cause.kinds.len()
            invariant
                i <= cause@.len(),
                kinds@ == self@ + cause@.subrange(0, i as int),
            decreases cause@.len() - i,
        {
            kinds.push(cause.kinds[i]);
            i = i + 1;
        }
        assert(cause@.subrange(0, cause@.len() as int) =~= cause@);
        ErrorChain { kinds }
    }

    /// The outermost kind: the one added last.
    pub fn outermost(&self) -> (r: ErrorKind)
        requires
            self.wf(),
        ensures
            r == self@[0],
    {
        self.kinds[0]
    }

    /// The kind the error started as: the innermost cause.
    pub fn origin(&self) -> (r: ErrorKind)
        requires
            self.wf(),
        ensures
            r == self@.last(),
    {
        self.kinds[self.kinds.len() - 1]
    }

    /// All kinds of the error, outermost first.
    pub fn kinds(&self) -> (r: Vec<ErrorKind>)
        ensures
            r@ == self@,
    {
        self.kinds.clone()
    }
}

/// Chaining keeps both kinds, outermost first: when `r` is `e` chained with
/// `b`, `r` reads `b` first, then every kind of `e` in its order, so the
/// kind `e` started as is still the innermost. An error of kind `a` chained
/// with `b` reads `b`, then `a`.
pub proof fn lemma_chain_keeps_order(e: ErrorChain, b: ErrorKind, r: ErrorChain)
    requires
        e.wf(),
        r@ == chained(e@, b),
    ensures
        r@.len() == e@.len() + 1,
        r@[0] == b,
        r@.subrange(1, r@.len() as int) == e@,
        r@.last() == e@.last(),
        e@.len() == 1 ==> r@ == seq![b, e@[0]],
{
    assert(r@.subrange(1, r@.len() as int) =~= e@);
    if e@.len() == 1 {
        assert(r@ =~= seq![b, e@[0]]);
    }
}

} // verus!
