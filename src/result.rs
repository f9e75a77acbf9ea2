//! Result codes: the packed 32-bit status word returned by every system call
//! and every IPC reply.
use vstd::prelude::*;

verus! {

/// Packs the four fields of a result code into its 32-bit wire form.
pub open spec fn pack_result(level: u32, summary: u32, module: u32, description: u32) -> u32 {
    (level << 27u32) | (summary << 21u32) | (module << 10u32) | (description & 0x3ffu32)
}

/// Bits 27..32 of a result code.
pub open spec fn level_bits(v: u32) -> u32 {
    (v >> 27u32) & 0x1fu32
}

/// Bits 21..27 of a result code.
pub open spec fn summary_bits(v: u32) -> u32 {
    (v >> 21u32) & 0x3fu32
}

/// Bits 10..18 of a result code.
pub open spec fn module_bits(v: u32) -> u32 {
    (v >> 10u32) & 0xffu32
}

/// Bits 0..10 of a result code.
pub open spec fn description_bits(v: u32) -> u32 {
    v & 0x3ffu32
}

/// Packing fields that fit their bit widths and reading them back gives the
/// same fields; packing all-zero fields gives the success value 0, whose
/// fields are all zero (success) in turn.
pub proof fn lemma_pack_unpack(level: u32, summary: u32, module: u32, description: u32)
    requires
        level < 32,
        summary < 64,
        module < 256,
        description < 1024,
    ensures
        level_bits(pack_result(level, summary, module, description)) == level,
        summary_bits(pack_result(level, summary, module, description)) == summary,
        module_bits(pack_result(level, summary, module, description)) == module,
        description_bits(pack_result(level, summary, module, description)) == description,
        pack_result(0, 0, 0, 0) == 0,
        level_bits(0) == 0 && summary_bits(0) == 0 && module_bits(0) == 0 && description_bits(0)
            == 0,
        Level::spec_from_value(level_bits(0)) == Some(Level::Success),
{
    assert(((((level << 27u32) | (summary << 21u32) | (module << 10u32) | (description & 0x3ffu32)) >> 27u32) & 0x1fu32) == level) by (bit_vector)
        requires level < 32, summary < 64, module < 256, description < 1024;
    assert(((((level << 27u32) | (summary << 21u32) | (module << 10u32) | (description & 0x3ffu32)) >> 21u32) & 0x3fu32) == summary) by (bit_vector)
        requires level < 32, summary < 64, module < 256, description < 1024;
    assert(((((level << 27u32) | (summary << 21u32) | (module << 10u32) | (description & 0x3ffu32)) >> 10u32) & 0xffu32) == module) by (bit_vector)
        requires level < 32, summary < 64, module < 256, description < 1024;
    assert((((level << 27u32) | (summary << 21u32) | (module << 10u32) | (description & 0x3ffu32)) & 0x3ffu32) == description) by (bit_vector)
        requires level < 32, summary < 64, module < 256, description < 1024;
    assert(((0u32 << 27u32) | (0u32 << 21u32) | (0u32 << 10u32) | (0u32 & 0x3ffu32)) == 0u32) by (bit_vector);
    assert(((0u32 >> 27u32) & 0x1fu32) == 0u32 && ((0u32 >> 21u32) & 0x3fu32) == 0u32 && ((0u32
        >> 10u32) & 0xffu32) == 0u32 && (0u32 & 0x3ffu32) == 0u32) by (bit_vector);
}

/// A raw status word; 0 is the one success value.
#[derive(Debug, Copy, Clone, PartialEq, Eq, Structural)]
pub struct ResultCode(pub u32);

/// A status word that is known to be a failure (never 0).
#[derive(Debug, Copy, Clone, PartialEq, Eq, Structural)]
pub struct ErrorCode {
    value: u32,
}

impl ErrorCode {
    #[verifier::type_invariant]
    spec fn nonzero(&self) -> bool {
        self.value != 0
    }

    /// The raw failure word.
    pub closed spec fn spec_value(&self) -> u32 {
        self.value
    }

    /// Keeps a nonzero status word as a failure.
    pub fn from_raw(value: u32) -> (r: ErrorCode)
        requires
            value != 0,
        ensures
            r.spec_value() == value,
    {
        ErrorCode { value }
    }

    /// Builds the failure code with the given fields. A combination that packs
    /// to the success value has no failure code, and gives `None`.
    pub fn new(level: Level, summary: Summary, module: Module, description: u32) -> (r: Option<
        ErrorCode,
    >)
        ensures
            pack_result(level.spec_value(), summary.spec_value(), module.spec_value() as u32, description) == 0
                <==> r is None,
            r matches Some(e) ==> e.spec_value() == pack_result(
                level.spec_value(),
                summary.spec_value(),
                module.spec_value() as u32,
                description,
            ),
    {
        let ResultCode(v) = ResultCode::new(level, summary, module, description);
        if v == 0 {
            None
        } else {
            Some(ErrorCode { value: v })
        }
    }

    /// The failure code with the given fields, for a level other than
    /// success (which makes the code nonzero).
    pub fn with_fields(level: Level, summary: Summary, module: Module, description: u32) -> (r:
        ErrorCode)
        requires
            level != Level::Success,
        ensures
            r.spec_value() == pack_result(
                level.spec_value(),
                summary.spec_value(),
                module.spec_value() as u32,
                description,
            ),
    {
        let ResultCode(v) = ResultCode::new(level, summary, module, description);
        let l = level.to_value();
        let s = summary.to_value();
        let m = module.to_value() as u32;
        assert(((l << 27u32) | (s << 21u32) | (m << 10u32) | (description & 0x3ffu32)) != 0)
            by (bit_vector)
            requires
                1 <= l < 32,
        ;
        ErrorCode { value: v }
    }

    /// The raw failure word, which is never 0.
    pub fn raw(&self) -> (r: u32)
        ensures
            r == self.spec_value(),
            r != 0,
    {
        proof {
            use_type_invariant(self);
        }
        self.value
    }

    /// The same failure as a plain result code.
    pub fn into_result_code(self) -> (r: ResultCode)
        ensures
            r.0 == self.spec_value(),
            r.0 != 0,
    {
        ResultCode(self.raw())
    }
}

impl ResultCode {
    /// `Ok(())` for the success value, the failure otherwise.
    pub fn into_result(self) -> (r: Result<(), ErrorCode>)
        ensures
            self.0 == 0 <==> r is Ok,
            r matches Err(e) ==> e.spec_value() == self.0,
    {
        if self.0 == 0 {
            Ok(())
        } else {
            Err(ErrorCode { value: self.0 })
        }
    }

    /// `value` on success, the failure otherwise.
    pub fn and<T>(self, value: T) -> (r: Result<T, ErrorCode>)
        ensures
            self.0 == 0 <==> r is Ok,
            r matches Ok(v) ==> v == value,
            r matches Err(e) ==> e.spec_value() == self.0,
    {
        match self.into_result() {
            Ok(()) => Ok(value),
            Err(e) => Err(e),
        }
    }

    /// Runs `f` on success only, and returns what it gave.
    pub fn and_then<T, F: FnOnce() -> T>(self, f: F) -> (r: Result<T, ErrorCode>)
        requires
            self.0 == 0 ==> f.requires(()),
        ensures
            self.0 == 0 <==> r is Ok,
            r matches Ok(v) ==> f.ensures((), v),
            r matches Err(e) ==> e.spec_value() == self.0,
    {
        match self.into_result() {
            Ok(()) => Ok(f()),
            Err(e) => Err(e),
        }
    }

    /// Packs level, summary, module and the low ten bits of `description`.
    pub fn new(level: Level, summary: Summary, module: Module, description: u32) -> (r: ResultCode)
        ensures
            r.0 == pack_result(
                level.spec_value(),
                summary.spec_value(),
                module.spec_value() as u32,
                description,
            ),
    {
        let l: u32 = level.to_value();
        let s: u32 = summary.to_value();
        let m: u32 = module.to_value() as u32;
        ResultCode((l << 27u32) | (s << 21u32) | (m << 10u32) | (description & 0x3ffu32))
    }

    /// The success value, 0.
    pub fn success() -> (r: ResultCode)
        ensures
            r.0 == 0,
    {
        ResultCode(0)
    }

    /// Wraps a raw status word.
    pub fn from_raw(value: u32) -> (r: ResultCode)
        ensures
            r.0 == value,
    {
        ResultCode(value)
    }
}

/// Read access to the fields of a status word.
pub trait ResultValue {
    spec fn raw_value(&self) -> u32;

    fn value(&self) -> (r: u32)
        ensures
            r == self.raw_value(),
    ;

    fn is_err(&self) -> (r: bool)
        ensures
            r == (self.raw_value() != 0),
    ;

    fn is_ok(&self) -> (r: bool)
        ensures
            r == (self.raw_value() == 0),
    ;

    fn level(&self) -> (r: Result<Level, u32>)
        ensures
            match Level::spec_from_value(level_bits(self.raw_value())) {
                Some(e) => r == Ok::<Level, u32>(e),
                None => r == Err::<Level, u32>(level_bits(self.raw_value())),
            },
    ;

    fn summary(&self) -> (r: Result<Summary, u32>)
        ensures
            match Summary::spec_from_value(summary_bits(self.raw_value())) {
                Some(e) => r == Ok::<Summary, u32>(e),
                None => r == Err::<Summary, u32>(summary_bits(self.raw_value())),
            },
    ;

    fn module(&self) -> (r: Result<Module, u8>)
        ensures
            match Module::spec_from_value(module_bits(self.raw_value()) as u8) {
                Some(e) => r == Ok::<Module, u8>(e),
                None => r == Err::<Module, u8>(module_bits(self.raw_value()) as u8),
            },
    ;

    fn description(&self) -> (r: Result<CommonDescription, u32>)
        ensures
            match CommonDescription::spec_from_value(description_bits(self.raw_value())) {
                Some(e) => r == Ok::<CommonDescription, u32>(e),
                None => r == Err::<CommonDescription, u32>(description_bits(self.raw_value())),
            },
    ;
}

fn field_level(v: u32) -> (r: Result<Level, u32>)
    ensures
        match Level::spec_from_value(level_bits(v)) {
            Some(e) => r == Ok::<Level, u32>(e),
            None => r == Err::<Level, u32>(level_bits(v)),
        },
{
    Level::from_value((v >> 27u32) & 0x1fu32)
}

fn field_summary(v: u32) -> (r: Result<Summary, u32>)
    ensures
        match Summary::spec_from_value(summary_bits(v)) {
            Some(e) => r == Ok::<Summary, u32>(e),
            None => r == Err::<Summary, u32>(summary_bits(v)),
        },
{
    Summary::from_value((v >> 21u32) & 0x3fu32)
}

fn field_module(v: u32) -> (r: Result<Module, u8>)
    ensures
        match Module::spec_from_value(module_bits(v) as u8) {
            Some(e) => r == Ok::<Module, u8>(e),
            None => r == Err::<Module, u8>(module_bits(v) as u8),
        },
{
    Module::from_value(((v >> 10u32) & 0xffu32) as u8)
}

fn field_description(v: u32) -> (r: Result<CommonDescription, u32>)
    ensures
        match CommonDescription::spec_from_value(description_bits(v)) {
            Some(e) => r == Ok::<CommonDescription, u32>(e),
            None => r == Err::<CommonDescription, u32>(description_bits(v)),
        },
{
    CommonDescription::from_value(v & 0x3ffu32)
}

impl ResultValue for ResultCode {
    open spec fn raw_value(&self) -> u32 {
        self.0
    }

    fn value(&self) -> (r: u32) {
        self.0
    }

    fn is_err(&self) -> (r: bool) {
        self.0 != 0
    }

    fn is_ok(&self) -> (r: bool) {
        self.0 == 0
    }

    fn level(&self) -> (r: Result<Level, u32>) {
        field_level(self.0)
    }

    fn summary(&self) -> (r: Result<Summary, u32>) {
        field_summary(self.0)
    }

    fn module(&self) -> (r: Result<Module, u8>) {
        field_module(self.0)
    }

    fn description(&self) -> (r: Result<CommonDescription, u32>) {
        field_description(self.0)
    }
}

impl ResultValue for ErrorCode {
    open spec fn raw_value(&self) -> u32 {
        self.spec_value()
    }

    fn value(&self) -> (r: u32) {
        self.raw()
    }

    fn is_err(&self) -> (r: bool) {
        proof {
            use_type_invariant(self);
        }
        true
    }

    fn is_ok(&self) -> (r: bool) {
        proof {
            use_type_invariant(self);
        }
        false
    }

    fn level(&self) -> (r: Result<Level, u32>) {
        field_level(self.raw())
    }

    fn summary(&self) -> (r: Result<Summary, u32>) {
        field_summary(self.raw())
    }

    fn module(&self) -> (r: Result<Module, u8>) {
        field_module(self.raw())
    }

    fn description(&self) -> (r: Result<CommonDescription, u32>) {
        field_description(self.raw())
    }
}

/// A module-specific description that can be placed in the low bits of a
/// result code.
pub trait Description {
    fn into_code(self) -> u32;
}

impl Description for CommonDescription {
    fn into_code(self) -> (r: u32) {
        self.to_value()
    }
}

/// Severity of a failure, the top five bits of a result code.
#[derive(Debug, Copy, Clone, PartialEq, Eq, Structural)]
pub enum Level {
    Success,
    Info,
    Status,
    Temporary,
    Permanent,
    Usage,
    Reinitialize,
    Reset,
    Fatal,
}

impl Level {
    /// The wire value of this variant.
    pub open spec fn spec_value(self) -> u32 {
        match self {
            Level::Success => 0,
            Level::Info => 1,
            Level::Status => 25,
            Level::Temporary => 26,
            Level::Permanent => 27,
            Level::Usage => 28,
            Level::Reinitialize => 29,
            Level::Reset => 30,
            Level::Fatal => 31,
        }
    }

    /// The variant whose wire value is `v`, if any.
    pub open spec fn spec_from_value(v: u32) -> Option<Level> {
        if v == 0 {
            Some(Level::Success)
        } else if v == 1 {
            Some(Level::Info)
        } else if v == 25 {
            Some(Level::Status)
        } else if v == 26 {
            Some(Level::Temporary)
        } else if v == 27 {
            Some(Level::Permanent)
        } else if v == 28 {
            Some(Level::Usage)
        } else if v == 29 {
            Some(Level::Reinitialize)
        } else if v == 30 {
            Some(Level::Reset)
        } else if v == 31 {
            Some(Level::Fatal)
        } else {
            None
        }
    }

    pub fn to_value(self) -> (r: u32)
        ensures
            r == self.spec_value(),
    {
        match self {
            Level::Success => 0,
            Level::Info => 1,
            Level::Status => 25,
            Level::Temporary => 26,
            Level::Permanent => 27,
            Level::Usage => 28,
            Level::Reinitialize => 29,
            Level::Reset => 30,
            Level::Fatal => 31,
        }
    }

    pub fn from_value(v: u32) -> (r: Result<Level, u32>)
        ensures
            match Level::spec_from_value(v) {
                Some(e) => r == Ok::<Level, u32>(e),
                None => r == Err::<Level, u32>(v),
            },
    {
        match v {
            0 => Ok(Level::Success),
            1 => Ok(Level::Info),
            25 => Ok(Level::Status),
            26 => Ok(Level::Temporary),
            27 => Ok(Level::Permanent),
            28 => Ok(Level::Usage),
            29 => Ok(Level::Reinitialize),
            30 => Ok(Level::Reset),
            31 => Ok(Level::Fatal),
            _ => Err(v),
        }
    }
}

/// Broad category of a failure, six bits of a result code.
#[derive(Debug, Copy, Clone, PartialEq, Eq, Structural)]
pub enum Summary {
    Success,
    Nop,
    WouldBlock,
    OutOfResource,
    NotFound,
    InvalidState,
    NotSupported,
    InvalidArgument,
    WrongArgument,
    Canceled,
    StatusChanged,
    Internal,
    InvalidResultValue,
}

impl Summary {
    /// The wire value of this variant.
    pub open spec fn spec_value(self) -> u32 {
        match self {
            Summary::Success => 0,
            Summary::Nop => 1,
            Summary::WouldBlock => 2,
            Summary::OutOfResource => 3,
            Summary::NotFound => 4,
            Summary::InvalidState => 5,
            Summary::NotSupported => 6,
            Summary::InvalidArgument => 7,
            Summary::WrongArgument => 8,
            Summary::Canceled => 9,
            Summary::StatusChanged => 10,
            Summary::Internal => 11,
            Summary::InvalidResultValue => 63,
        }
    }

    /// The variant whose wire value is `v`, if any.
    pub open spec fn spec_from_value(v: u32) -> Option<Summary> {
        if v == 0 {
            Some(Summary::Success)
        } else if v == 1 {
            Some(Summary::Nop)
        } else if v == 2 {
            Some(Summary::WouldBlock)
        } else if v == 3 {
            Some(Summary::OutOfResource)
        } else if v == 4 {
            Some(Summary::NotFound)
        } else if v == 5 {
            Some(Summary::InvalidState)
        } else if v == 6 {
            Some(Summary::NotSupported)
        } else if v == 7 {
            Some(Summary::InvalidArgument)
        } else if v == 8 {
            Some(Summary::WrongArgument)
        } else if v == 9 {
            Some(Summary::Canceled)
        } else if v == 10 {
            Some(Summary::StatusChanged)
        } else if v == 11 {
            Some(Summary::Internal)
        } else if v == 63 {
            Some(Summary::InvalidResultValue)
        } else {
            None
        }
    }

    pub fn to_value(self) -> (r: u32)
        ensures
            r == self.spec_value(),
    {
        match self {
            Summary::Success => 0,
            Summary::Nop => 1,
            Summary::WouldBlock => 2,
            Summary::OutOfResource => 3,
            Summary::NotFound => 4,
            Summary::InvalidState => 5,
            Summary::NotSupported => 6,
            Summary::InvalidArgument => 7,
            Summary::WrongArgument => 8,
            Summary::Canceled => 9,
            Summary::StatusChanged => 10,
            Summary::Internal => 11,
            Summary::InvalidResultValue => 63,
        }
    }

    pub fn from_value(v: u32) -> (r: Result<Summary, u32>)
        ensures
            match Summary::spec_from_value(v) {
                Some(e) => r == Ok::<Summary, u32>(e),
                None => r == Err::<Summary, u32>(v),
            },
    {
        match v {
            0 => Ok(Summary::Success),
            1 => Ok(Summary::Nop),
            2 => Ok(Summary::WouldBlock),
            3 => Ok(Summary::OutOfResource),
            4 => Ok(Summary::NotFound),
            5 => Ok(Summary::InvalidState),
            6 => Ok(Summary::NotSupported),
            7 => Ok(Summary::InvalidArgument),
            8 => Ok(Summary::WrongArgument),
            9 => Ok(Summary::Canceled),
            10 => Ok(Summary::StatusChanged),
            11 => Ok(Summary::Internal),
            63 => Ok(Summary::InvalidResultValue),
            _ => Err(v),
        }
    }
}

/// The system component that reported a result code.
#[derive(Debug, Copy, Clone, PartialEq, Eq, Structural)]
pub enum Module {
    Common,
    Kernel,
    Util,
    FileServer,
    LoaderServer,
    Tcb,
    Os,
    Dbg,
    Dmnt,
    Pdn,
    Gsp,
    I2c,
    Gpio,
    Dd,
    Codec,
    Spi,
    Pxi,
    Fs,
    Di,
    Hid,
    Cam,
    Pi,
    Pm,
    PmLow,
    Fsi,
    Srv,
    Ndm,
    Nwm,
    Soc,
    Ldr,
    Acc,
    RomFs,
    Am,
    Hio,
    Updater,
    Mic,
    Fnd,
    Mp,
    Mpwl,
    Ac,
    Http,
    Dsp,
    Snd,
    Dlp,
    HioLow,
    Csnd,
    Ssl,
    AmLow,
    Nex,
    Friends,
    Rdt,
    Applet,
    Nim,
    Ptm,
    Midi,
    Mc,
    Swc,
    FatFs,
    Ngc,
    Card,
    CardNor,
    Sdmc,
    Boss,
    Dbm,
    Config,
    Ps,
    Cec,
    Ir,
    Uds,
    Pl,
    Cup,
    Gyroscope,
    Mcu,
    Ns,
    News,
    Ro,
    Gd,
    CardSpi,
    Ec,
    WebBrowser,
    Test,
    Enc,
    Pia,
    Act,
    VctL,
    Olv,
    Neia,
    Npns,
    Avd,
    L2b,
    Mvd,
    Nfc,
    Uart,
    Spm,
    Qtm,
    Nfp,
    Application,
    Invalid,
}

impl Module {
    /// The wire value of this variant.
    pub open spec fn spec_value(self) -> u8 {
        match self {
            Module::Common => 0,
            Module::Kernel => 1,
            Module::Util => 2,
            Module::FileServer => 3,
            Module::LoaderServer => 4,
            Module::Tcb => 5,
            Module::Os => 6,
            Module::Dbg => 7,
            Module::Dmnt => 8,
            Module::Pdn => 9,
            Module::Gsp => 10,
            Module::I2c => 11,
            Module::Gpio => 12,
            Module::Dd => 13,
            Module::Codec => 14,
            Module::Spi => 15,
            Module::Pxi => 16,
            Module::Fs => 17,
            Module::Di => 18,
            Module::Hid => 19,
            Module::Cam => 20,
            Module::Pi => 21,
            Module::Pm => 22,
            Module::PmLow => 23,
            Module::Fsi => 24,
            Module::Srv => 25,
            Module::Ndm => 26,
            Module::Nwm => 27,
            Module::Soc => 28,
            Module::Ldr => 29,
            Module::Acc => 30,
            Module::RomFs => 31,
            Module::Am => 32,
            Module::Hio => 33,
            Module::Updater => 34,
            Module::Mic => 35,
            Module::Fnd => 36,
            Module::Mp => 37,
            Module::Mpwl => 38,
            Module::Ac => 39,
            Module::Http => 40,
            Module::Dsp => 41,
            Module::Snd => 42,
            Module::Dlp => 43,
            Module::HioLow => 44,
            Module::Csnd => 45,
            Module::Ssl => 46,
            Module::AmLow => 47,
            Module::Nex => 48,
            Module::Friends => 49,
            Module::Rdt => 50,
            Module::Applet => 51,
            Module::Nim => 52,
            Module::Ptm => 53,
            Module::Midi => 54,
            Module::Mc => 55,
            Module::Swc => 56,
            Module::FatFs => 57,
            Module::Ngc => 58,
            Module::Card => 59,
            Module::CardNor => 60,
            Module::Sdmc => 61,
            Module::Boss => 62,
            Module::Dbm => 63,
            Module::Config => 64,
            Module::Ps => 65,
            Module::Cec => 66,
            Module::Ir => 67,
            Module::Uds => 68,
            Module::Pl => 69,
            Module::Cup => 70,
            Module::Gyroscope => 71,
            Module::Mcu => 72,
            Module::Ns => 73,
            Module::News => 74,
            Module::Ro => 75,
            Module::Gd => 76,
            Module::CardSpi => 77,
            Module::Ec => 78,
            Module::WebBrowser => 79,
            Module::Test => 80,
            Module::Enc => 81,
            Module::Pia => 82,
            Module::Act => 83,
            Module::VctL => 84,
            Module::Olv => 85,
            Module::Neia => 86,
            Module::Npns => 87,
            Module::Avd => 90,
            Module::L2b => 91,
            Module::Mvd => 92,
            Module::Nfc => 93,
            Module::Uart => 94,
            Module::Spm => 95,
            Module::Qtm => 96,
            Module::Nfp => 97,
            Module::Application => 254,
            Module::Invalid => 255,
        }
    }

    /// The variant whose wire value is `v`, if any.
    pub open spec fn spec_from_value(v: u8) -> Option<Module> {
        if v == 0 {
            Some(Module::Common)
        } else if v == 1 {
            Some(Module::Kernel)
        } else if v == 2 {
            Some(Module::Util)
        } else if v == 3 {
            Some(Module::FileServer)
        } else if v == 4 {
            Some(Module::LoaderServer)
        } else if v == 5 {
            Some(Module::Tcb)
        } else if v == 6 {
            Some(Module::Os)
        } else if v == 7 {
            Some(Module::Dbg)
        } else if v == 8 {
            Some(Module::Dmnt)
        } else if v == 9 {
            Some(Module::Pdn)
        } else if v == 10 {
            Some(Module::Gsp)
        } else if v == 11 {
            Some(Module::I2c)
        } else if v == 12 {
            Some(Module::Gpio)
        } else if v == 13 {
            Some(Module::Dd)
        } else if v == 14 {
            Some(Module::Codec)
        } else if v == 15 {
            Some(Module::Spi)
        } else if v == 16 {
            Some(Module::Pxi)
        } else if v == 17 {
            Some(Module::Fs)
        } else if v == 18 {
            Some(Module::Di)
        } else if v == 19 {
            Some(Module::Hid)
        } else if v == 20 {
            Some(Module::Cam)
        } else if v == 21 {
            Some(Module::Pi)
        } else if v == 22 {
            Some(Module::Pm)
        } else if v == 23 {
            Some(Module::PmLow)
        } else if v == 24 {
            Some(Module::Fsi)
        } else if v == 25 {
            Some(Module::Srv)
        } else if v == 26 {
            Some(Module::Ndm)
        } else if v == 27 {
            Some(Module::Nwm)
        } else if v == 28 {
            Some(Module::Soc)
        } else if v == 29 {
            Some(Module::Ldr)
        } else if v == 30 {
            Some(Module::Acc)
        } else if v == 31 {
            Some(Module::RomFs)
        } else if v == 32 {
            Some(Module::Am)
        } else if v == 33 {
            Some(Module::Hio)
        } else if v == 34 {
            Some(Module::Updater)
        } else if v == 35 {
            Some(Module::Mic)
        } else if v == 36 {
            Some(Module::Fnd)
        } else if v == 37 {
            Some(Module::Mp)
        } else if v == 38 {
            Some(Module::Mpwl)
        } else if v == 39 {
            Some(Module::Ac)
        } else if v == 40 {
            Some(Module::Http)
        } else if v == 41 {
            Some(Module::Dsp)
        } else if v == 42 {
            Some(Module::Snd)
        } else if v == 43 {
            Some(Module::Dlp)
        } else if v == 44 {
            Some(Module::HioLow)
        } else if v == 45 {
            Some(Module::Csnd)
        } else if v == 46 {
            Some(Module::Ssl)
        } else if v == 47 {
            Some(Module::AmLow)
        } else if v == 48 {
            Some(Module::Nex)
        } else if v == 49 {
            Some(Module::Friends)
        } else if v == 50 {
            Some(Module::Rdt)
        } else if v == 51 {
            Some(Module::Applet)
        } else if v == 52 {
            Some(Module::Nim)
        } else if v == 53 {
            Some(Module::Ptm)
        } else if v == 54 {
            Some(Module::Midi)
        } else if v == 55 {
            Some(Module::Mc)
        } else if v == 56 {
            Some(Module::Swc)
        } else if v == 57 {
            Some(Module::FatFs)
        } else if v == 58 {
            Some(Module::Ngc)
        } else if v == 59 {
            Some(Module::Card)
        } else if v == 60 {
            Some(Module::CardNor)
        } else if v == 61 {
            Some(Module::Sdmc)
        } else if v == 62 {
            Some(Module::Boss)
        } else if v == 63 {
            Some(Module::Dbm)
        } else if v == 64 {
            Some(Module::Config)
        } else if v == 65 {
            Some(Module::Ps)
        } else if v == 66 {
            Some(Module::Cec)
        } else if v == 67 {
            Some(Module::Ir)
        } else if v == 68 {
            Some(Module::Uds)
        } else if v == 69 {
            Some(Module::Pl)
        } else if v == 70 {
            Some(Module::Cup)
        } else if v == 71 {
            Some(Module::Gyroscope)
        } else if v == 72 {
            Some(Module::Mcu)
        } else if v == 73 {
            Some(Module::Ns)
        } else if v == 74 {
            Some(Module::News)
        } else if v == 75 {
            Some(Module::Ro)
        } else if v == 76 {
            Some(Module::Gd)
        } else if v == 77 {
            Some(Module::CardSpi)
        } else if v == 78 {
            Some(Module::Ec)
        } else if v == 79 {
            Some(Module::WebBrowser)
        } else if v == 80 {
            Some(Module::Test)
        } else if v == 81 {
            Some(Module::Enc)
        } else if v == 82 {
            Some(Module::Pia)
        } else if v == 83 {
            Some(Module::Act)
        } else if v == 84 {
            Some(Module::VctL)
        } else if v == 85 {
            Some(Module::Olv)
        } else if v == 86 {
            Some(Module::Neia)
        } else if v == 87 {
            Some(Module::Npns)
        } else if v == 90 {
            Some(Module::Avd)
        } else if v == 91 {
            Some(Module::L2b)
        } else if v == 92 {
            Some(Module::Mvd)
        } else if v == 93 {
            Some(Module::Nfc)
        } else if v == 94 {
            Some(Module::Uart)
        } else if v == 95 {
            Some(Module::Spm)
        } else if v == 96 {
            Some(Module::Qtm)
        } else if v == 97 {
            Some(Module::Nfp)
        } else if v == 254 {
            Some(Module::Application)
        } else if v == 255 {
            Some(Module::Invalid)
        } else {
            None
        }
    }

    pub fn to_value(self) -> (r: u8)
        ensures
            r == self.spec_value(),
    {
        match self {
            Module::Common => 0,
            Module::Kernel => 1,
            Module::Util => 2,
            Module::FileServer => 3,
            Module::LoaderServer => 4,
            Module::Tcb => 5,
            Module::Os => 6,
            Module::Dbg => 7,
            Module::Dmnt => 8,
            Module::Pdn => 9,
            Module::Gsp => 10,
            Module::I2c => 11,
            Module::Gpio => 12,
            Module::Dd => 13,
            Module::Codec => 14,
            Module::Spi => 15,
            Module::Pxi => 16,
            Module::Fs => 17,
            Module::Di => 18,
            Module::Hid => 19,
            Module::Cam => 20,
            Module::Pi => 21,
            Module::Pm => 22,
            Module::PmLow => 23,
            Module::Fsi => 24,
            Module::Srv => 25,
            Module::Ndm => 26,
            Module::Nwm => 27,
            Module::Soc => 28,
            Module::Ldr => 29,
            Module::Acc => 30,
            Module::RomFs => 31,
            Module::Am => 32,
            Module::Hio => 33,
            Module::Updater => 34,
            Module::Mic => 35,
            Module::Fnd => 36,
            Module::Mp => 37,
            Module::Mpwl => 38,
            Module::Ac => 39,
            Module::Http => 40,
            Module::Dsp => 41,
            Module::Snd => 42,
            Module::Dlp => 43,
            Module::HioLow => 44,
            Module::Csnd => 45,
            Module::Ssl => 46,
            Module::AmLow => 47,
            Module::Nex => 48,
            Module::Friends => 49,
            Module::Rdt => 50,
            Module::Applet => 51,
            Module::Nim => 52,
            Module::Ptm => 53,
            Module::Midi => 54,
            Module::Mc => 55,
            Module::Swc => 56,
            Module::FatFs => 57,
            Module::Ngc => 58,
            Module::Card => 59,
            Module::CardNor => 60,
            Module::Sdmc => 61,
            Module::Boss => 62,
            Module::Dbm => 63,
            Module::Config => 64,
            Module::Ps => 65,
            Module::Cec => 66,
            Module::Ir => 67,
            Module::Uds => 68,
            Module::Pl => 69,
            Module::Cup => 70,
            Module::Gyroscope => 71,
            Module::Mcu => 72,
            Module::Ns => 73,
            Module::News => 74,
            Module::Ro => 75,
            Module::Gd => 76,
            Module::CardSpi => 77,
            Module::Ec => 78,
            Module::WebBrowser => 79,
            Module::Test => 80,
            Module::Enc => 81,
            Module::Pia => 82,
            Module::Act => 83,
            Module::VctL => 84,
            Module::Olv => 85,
            Module::Neia => 86,
            Module::Npns => 87,
            Module::Avd => 90,
            Module::L2b => 91,
            Module::Mvd => 92,
            Module::Nfc => 93,
            Module::Uart => 94,
            Module::Spm => 95,
            Module::Qtm => 96,
            Module::Nfp => 97,
            Module::Application => 254,
            Module::Invalid => 255,
        }
    }

    pub fn from_value(v: u8) -> (r: Result<Module, u8>)
        ensures
            match Module::spec_from_value(v) {
                Some(e) => r == Ok::<Module, u8>(e),
                None => r == Err::<Module, u8>(v),
            },
    {
        match v {
            0 => Ok(Module::Common),
            1 => Ok(Module::Kernel),
            2 => Ok(Module::Util),
            3 => Ok(Module::FileServer),
            4 => Ok(Module::LoaderServer),
            5 => Ok(Module::Tcb),
            6 => Ok(Module::Os),
            7 => Ok(Module::Dbg),
            8 => Ok(Module::Dmnt),
            9 => Ok(Module::Pdn),
            10 => Ok(Module::Gsp),
            11 => Ok(Module::I2c),
            12 => Ok(Module::Gpio),
            13 => Ok(Module::Dd),
            14 => Ok(Module::Codec),
            15 => Ok(Module::Spi),
            16 => Ok(Module::Pxi),
            17 => Ok(Module::Fs),
            18 => Ok(Module::Di),
            19 => Ok(Module::Hid),
            20 => Ok(Module::Cam),
            21 => Ok(Module::Pi),
            22 => Ok(Module::Pm),
            23 => Ok(Module::PmLow),
            24 => Ok(Module::Fsi),
            25 => Ok(Module::Srv),
            26 => Ok(Module::Ndm),
            27 => Ok(Module::Nwm),
            28 => Ok(Module::Soc),
            29 => Ok(Module::Ldr),
            30 => Ok(Module::Acc),
            31 => Ok(Module::RomFs),
            32 => Ok(Module::Am),
            33 => Ok(Module::Hio),
            34 => Ok(Module::Updater),
            35 => Ok(Module::Mic),
            36 => Ok(Module::Fnd),
            37 => Ok(Module::Mp),
            38 => Ok(Module::Mpwl),
            39 => Ok(Module::Ac),
            40 => Ok(Module::Http),
            41 => Ok(Module::Dsp),
            42 => Ok(Module::Snd),
            43 => Ok(Module::Dlp),
            44 => Ok(Module::HioLow),
            45 => Ok(Module::Csnd),
            46 => Ok(Module::Ssl),
            47 => Ok(Module::AmLow),
            48 => Ok(Module::Nex),
            49 => Ok(Module::Friends),
            50 => Ok(Module::Rdt),
            51 => Ok(Module::Applet),
            52 => Ok(Module::Nim),
            53 => Ok(Module::Ptm),
            54 => Ok(Module::Midi),
            55 => Ok(Module::Mc),
            56 => Ok(Module::Swc),
            57 => Ok(Module::FatFs),
            58 => Ok(Module::Ngc),
            59 => Ok(Module::Card),
            60 => Ok(Module::CardNor),
            61 => Ok(Module::Sdmc),
            62 => Ok(Module::Boss),
            63 => Ok(Module::Dbm),
            64 => Ok(Module::Config),
            65 => Ok(Module::Ps),
            66 => Ok(Module::Cec),
            67 => Ok(Module::Ir),
            68 => Ok(Module::Uds),
            69 => Ok(Module::Pl),
            70 => Ok(Module::Cup),
            71 => Ok(Module::Gyroscope),
            72 => Ok(Module::Mcu),
            73 => Ok(Module::Ns),
            74 => Ok(Module::News),
            75 => Ok(Module::Ro),
            76 => Ok(Module::Gd),
            77 => Ok(Module::CardSpi),
            78 => Ok(Module::Ec),
            79 => Ok(Module::WebBrowser),
            80 => Ok(Module::Test),
            81 => Ok(Module::Enc),
            82 => Ok(Module::Pia),
            83 => Ok(Module::Act),
            84 => Ok(Module::VctL),
            85 => Ok(Module::Olv),
            86 => Ok(Module::Neia),
            87 => Ok(Module::Npns),
            90 => Ok(Module::Avd),
            91 => Ok(Module::L2b),
            92 => Ok(Module::Mvd),
            93 => Ok(Module::Nfc),
            94 => Ok(Module::Uart),
            95 => Ok(Module::Spm),
            96 => Ok(Module::Qtm),
            97 => Ok(Module::Nfp),
            254 => Ok(Module::Application),
            255 => Ok(Module::Invalid),
            _ => Err(v),
        }
    }
}

/// Descriptions shared by all modules, the low ten bits of a result code.
#[derive(Debug, Copy, Clone, PartialEq, Eq, Structural)]
pub enum CommonDescription {
    Success,
    InvalidSection,
    TooLarge,
    NotAuthorized,
    AlreadyDone,
    InvalidSize,
    InvalidEnumValue,
    InvalidCombination,
    NoData,
    Busy,
    MisalignedAddress,
    MisalignedSize,
    OutOfMemory,
    NotImplemented,
    InvalidAddress,
    InvalidPointer,
    InvalidHandle,
    NotInitialized,
    AlreadyInitialized,
    NotFound,
    CancelRequested,
    AlreadyExists,
    OutOfRange,
    Timeout,
    InvalidResultValue,
}

impl CommonDescription {
    /// The wire value of this variant.
    pub open spec fn spec_value(self) -> u32 {
        match self {
            CommonDescription::Success => 0,
            CommonDescription::InvalidSection => 1000,
            CommonDescription::TooLarge => 1001,
            CommonDescription::NotAuthorized => 1002,
            CommonDescription::AlreadyDone => 1003,
            CommonDescription::InvalidSize => 1004,
            CommonDescription::InvalidEnumValue => 1005,
            CommonDescription::InvalidCombination => 1006,
            CommonDescription::NoData => 1007,
            CommonDescription::Busy => 1008,
            CommonDescription::MisalignedAddress => 1009,
            CommonDescription::MisalignedSize => 1010,
            CommonDescription::OutOfMemory => 1011,
            CommonDescription::NotImplemented => 1012,
            CommonDescription::InvalidAddress => 1013,
            CommonDescription::InvalidPointer => 1014,
            CommonDescription::InvalidHandle => 1015,
            CommonDescription::NotInitialized => 1016,
            CommonDescription::AlreadyInitialized => 1017,
            CommonDescription::NotFound => 1018,
            CommonDescription::CancelRequested => 1019,
            CommonDescription::AlreadyExists => 1020,
            CommonDescription::OutOfRange => 1021,
            CommonDescription::Timeout => 1022,
            CommonDescription::InvalidResultValue => 1023,
        }
    }

    /// The variant whose wire value is `v`, if any.
    pub open spec fn spec_from_value(v: u32) -> Option<CommonDescription> {
        if v == 0 {
            Some(CommonDescription::Success)
        } else if v == 1000 {
            Some(CommonDescription::InvalidSection)
        } else if v == 1001 {
            Some(CommonDescription::TooLarge)
        } else if v == 1002 {
            Some(CommonDescription::NotAuthorized)
        } else if v == 1003 {
            Some(CommonDescription::AlreadyDone)
        } else if v == 1004 {
            Some(CommonDescription::InvalidSize)
        } else if v == 1005 {
            Some(CommonDescription::InvalidEnumValue)
        } else if v == 1006 {
            Some(CommonDescription::InvalidCombination)
        } else if v == 1007 {
            Some(CommonDescription::NoData)
        } else if v == 1008 {
            Some(CommonDescription::Busy)
        } else if v == 1009 {
            Some(CommonDescription::MisalignedAddress)
        } else if v == 1010 {
            Some(CommonDescription::MisalignedSize)
        } else if v == 1011 {
            Some(CommonDescription::OutOfMemory)
        } else if v == 1012 {
            Some(CommonDescription::NotImplemented)
        } else if v == 1013 {
            Some(CommonDescription::InvalidAddress)
        } else if v == 1014 {
            Some(CommonDescription::InvalidPointer)
        } else if v == 1015 {
            Some(CommonDescription::InvalidHandle)
        } else if v == 1016 {
            Some(CommonDescription::NotInitialized)
        } else if v == 1017 {
            Some(CommonDescription::AlreadyInitialized)
        } else if v == 1018 {
            Some(CommonDescription::NotFound)
        } else if v == 1019 {
            Some(CommonDescription::CancelRequested)
        } else if v == 1020 {
            Some(CommonDescription::AlreadyExists)
        } else if v == 1021 {
            Some(CommonDescription::OutOfRange)
        } else if v == 1022 {
            Some(CommonDescription::Timeout)
        } else if v == 1023 {
            Some(CommonDescription::InvalidResultValue)
        } else {
            None
        }
    }

    pub fn to_value(self) -> (r: u32)
        ensures
            r == self.spec_value(),
    {
        match self {
            CommonDescription::Success => 0,
            CommonDescription::InvalidSection => 1000,
            CommonDescription::TooLarge => 1001,
            CommonDescription::NotAuthorized => 1002,
            CommonDescription::AlreadyDone => 1003,
            CommonDescription::InvalidSize => 1004,
            CommonDescription::InvalidEnumValue => 1005,
            CommonDescription::InvalidCombination => 1006,
            CommonDescription::NoData => 1007,
            CommonDescription::Busy => 1008,
            CommonDescription::MisalignedAddress => 1009,
            CommonDescription::MisalignedSize => 1010,
            CommonDescription::OutOfMemory => 1011,
            CommonDescription::NotImplemented => 1012,
            CommonDescription::InvalidAddress => 1013,
            CommonDescription::InvalidPointer => 1014,
            CommonDescription::InvalidHandle => 1015,
            CommonDescription::NotInitialized => 1016,
            CommonDescription::AlreadyInitialized => 1017,
            CommonDescription::NotFound => 1018,
            CommonDescription::CancelRequested => 1019,
            CommonDescription::AlreadyExists => 1020,
            CommonDescription::OutOfRange => 1021,
            CommonDescription::Timeout => 1022,
            CommonDescription::InvalidResultValue => 1023,
        }
    }

    pub fn from_value(v: u32) -> (r: Result<CommonDescription, u32>)
        ensures
            match CommonDescription::spec_from_value(v) {
                Some(e) => r == Ok::<CommonDescription, u32>(e),
                None => r == Err::<CommonDescription, u32>(v),
            },
    {
        match v {
            0 => Ok(CommonDescription::Success),
            1000 => Ok(CommonDescription::InvalidSection),
            1001 => Ok(CommonDescription::TooLarge),
            1002 => Ok(CommonDescription::NotAuthorized),
            1003 => Ok(CommonDescription::AlreadyDone),
            1004 => Ok(CommonDescription::InvalidSize),
            1005 => Ok(CommonDescription::InvalidEnumValue),
            1006 => Ok(CommonDescription::InvalidCombination),
            1007 => Ok(CommonDescription::NoData),
            1008 => Ok(CommonDescription::Busy),
            1009 => Ok(CommonDescription::MisalignedAddress),
            1010 => Ok(CommonDescription::MisalignedSize),
            1011 => Ok(CommonDescription::OutOfMemory),
            1012 => Ok(CommonDescription::NotImplemented),
            1013 => Ok(CommonDescription::InvalidAddress),
            1014 => Ok(CommonDescription::InvalidPointer),
            1015 => Ok(CommonDescription::InvalidHandle),
            1016 => Ok(CommonDescription::NotInitialized),
            1017 => Ok(CommonDescription::AlreadyInitialized),
            1018 => Ok(CommonDescription::NotFound),
            1019 => Ok(CommonDescription::CancelRequested),
            1020 => Ok(CommonDescription::AlreadyExists),
            1021 => Ok(CommonDescription::OutOfRange),
            1022 => Ok(CommonDescription::Timeout),
            1023 => Ok(CommonDescription::InvalidResultValue),
            _ => Err(v),
        }
    }
}

} // verus!
