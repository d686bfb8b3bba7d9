//! Native result codes, read as statuses and errors.

use vstd::prelude::*;

verus! {

/// Plain success.
pub const DI_OK: i32 = 0;

/// Success with a nuance; several statuses share this one code.
pub const S_FALSE: i32 = 1;

/// The device does not need polling; shares its code with [`S_FALSE`].
pub const DI_NOEFFECT: i32 = 1;

/// The device is polled: event notification will not fire by itself.
pub const DI_POLLEDDEVICE: i32 = 2;

/// The effect parameters were updated but not downloaded.
pub const DI_DOWNLOADSKIPPED: i32 = 3;

/// The effect was restarted to take the new parameters.
pub const DI_EFFECTRESTARTED: i32 = 4;

/// The effect parameters were truncated.
pub const DI_TRUNCATED: i32 = 8;

/// The settings were applied but could not be saved.
pub const DI_SETTINGSNOTSAVED: i32 = 11;

/// Both [`DI_TRUNCATED`] and [`DI_EFFECTRESTARTED`].
pub const DI_TRUNCATEDANDRESTARTED: i32 = 12;

/// The data was written to a write-protected target.
pub const DI_WRITEPROTECT: i32 = 19;

/// `0x8000000A`
pub const E_PENDING: i32 = -2147483638;

/// `0x80004001`
pub const DIERR_UNSUPPORTED: i32 = -2147467263;

/// `0x80004002`
pub const DIERR_NOINTERFACE: i32 = -2147467262;

/// `0x80004005`, also known as `DIERR_GENERIC`.
pub const E_FAIL: i32 = -2147467259;

/// `0x80040110`
pub const DIERR_NOAGGREGATION: i32 = -2147221232;

/// `0x80040154`
pub const DIERR_DEVICENOTREG: i32 = -2147221164;

/// `0x80040200`
pub const DIERR_INSUFFICIENTPRIVS: i32 = -2147220992;

/// `0x80040201`
pub const DIERR_DEVICEFULL: i32 = -2147220991;

/// `0x80040202`
pub const DIERR_MOREDATA: i32 = -2147220990;

/// `0x80040203`
pub const DIERR_NOTDOWNLOADED: i32 = -2147220989;

/// `0x80040204`
pub const DIERR_HASEFFECTS: i32 = -2147220988;

/// `0x80040205`
pub const DIERR_NOTEXCLUSIVEACQUIRED: i32 = -2147220987;

/// `0x80040206`
pub const DIERR_INCOMPLETEEFFECT: i32 = -2147220986;

/// `0x80040207`
pub const DIERR_NOTBUFFERED: i32 = -2147220985;

/// `0x80040208`
pub const DIERR_EFFECTPLAYING: i32 = -2147220984;

/// `0x80040209`
pub const DIERR_UNPLUGGED: i32 = -2147220983;

/// `0x8004020A`
pub const DIERR_REPORTFULL: i32 = -2147220982;

/// `0x8004020B`
pub const DIERR_MAPFILEFAIL: i32 = -2147220981;

/// `0x80070002`
pub const DIERR_OBJECTNOTFOUND: i32 = -2147024894;

/// `0x80070005`, the code that `DIERR_OTHERAPPHASPRIO`, `DIERR_READONLY` and
/// `DIERR_HANDLEEXISTS` all share.
pub const E_ACCESSDENIED: i32 = -2147024891;

/// `0x80070006`
pub const E_HANDLE: i32 = -2147024890;

/// `0x8007000C`
pub const DIERR_NOTACQUIRED: i32 = -2147024884;

/// `0x8007000E`
pub const DIERR_OUTOFMEMORY: i32 = -2147024882;

/// `0x80070015`
pub const DIERR_NOTINITIALIZED: i32 = -2147024875;

/// `0x8007001E`
pub const DIERR_INPUTLOST: i32 = -2147024866;

/// `0x80070057`
pub const DIERR_INVALIDPARAM: i32 = -2147024809;

/// `0x80070077`
pub const DIERR_BADDRIVERVER: i32 = -2147024777;

/// `0x800700AA`
pub const DIERR_ACQUIRED: i32 = -2147024726;

/// `0x8007047E`
pub const DIERR_OLDDIRECTINPUTVERSION: i32 = -2147023746;

/// `0x80070481`
pub const DIERR_BETADIRECTINPUTVERSION: i32 = -2147023743;

/// `0x800704DF`
pub const DIERR_ALREADYINITIALIZED: i32 = -2147023649;

/// What a call that did not fail has to say beyond "done".
#[derive(Clone, Copy, Debug, PartialEq, Eq, Structural)]
pub enum DirectInputStatus {
    BufferOverflow,
    DownloadSkipped,
    EffectRestarted,
    NoEffect,
    NotAttached,
    /// Plain success.
    Success,
    PolledDevice,
    PropNoEffect,
    SettingsNotSaved,
    Truncated,
    TruncatedAndRestarted,
    WriteProtect,
}

/// Why a call failed.
#[derive(Clone, Copy, Debug, PartialEq, Eq, Structural)]
pub enum DirectInputError {
    Acquired,
    AlreadyInitialized,
    BadDriverVersion,
    BetaDirectInputVersion,
    DeviceFull,
    DeviceNotReg,
    EffectPlaying,
    Generic,
    Handle,
    HandleExists,
    HasEffects,
    IncompleteEffect,
    InputLost,
    InvalidParam,
    InsufficientPrivs,
    MapFileFail,
    MoreData,
    NoAggregation,
    NoInterface,
    NotAcquired,
    NotBuffered,
    NotDownloaded,
    NotExclusiveAcquired,
    NotInitialized,
    ObjectNotFound,
    OldDirectInputVersion,
    OtherAppHasPrio,
    OutOfMemory,
    Pending,
    ReadOnly,
    ReportFull,
    Unplugged,
    Unsupported,
    /// A failure code that has no variant of its own, kept as it came.
    Unknown(i32),
}

/// The code that `HRESULT::from_win32` makes of a Win32 error code: zero and
/// codes with the top bit set stay as they are, any other code keeps its low
/// sixteen bits under the prefix `0x8007`.
pub open spec fn win32_hresult(error: u32) -> int {
    if error == 0 {
        0
    } else if error >= 0x8000_0000 {
        error - 0x1_0000_0000
    } else {
        error % 0x1_0000 - 0x7ff9_0000
    }
}

/// `windows_core::HRESULT::is_ok`: a code reports success exactly when it is
/// not negative.
#[verifier::external_body]
fn hresult_is_ok(code: i32) -> (ok: bool)
    ensures
        ok == (code >= 0),
{
    windows_core::HRESULT(code).is_ok()
}

/// `windows_core::HRESULT::from_win32`: the code is the one that
/// [`win32_hresult`] describes.
#[verifier::external_body]
fn hresult_from_win32(error: u32) -> (code: i32)
    ensures
        code == win32_hresult(error),
{
    windows_core::HRESULT::from_win32(error).0
}

/// `windows_core::Error`, carried through as it is. What it holds is read
/// through [`error_code`] alone.
#[verifier::external_type_specification]
#[verifier::external_body]
pub struct ExError(windows_core::Error);

/// The result code that a `windows_core::Error` carries.
pub uninterp spec fn error_code(error: windows_core::Error) -> i32;

/// `windows_core::Error::code`: the result code that the error carries.
#[verifier::external_body]
fn code_of(error: &windows_core::Error) -> (code: i32)
    ensures
        code == error_code(*error),
{
    error.code().0
}

/// Whether a native call that returned `code` succeeded.
pub fn succeeded(code: i32) -> (ok: bool)
    ensures
        ok == (code >= 0),
{
    hresult_is_ok(code)
}

impl DirectInputStatus {
    /// The native code that stands for this status. `BufferOverflow`,
    /// `NoEffect`, `NotAttached` and `PropNoEffect` share one code.
    pub open spec fn native_code(self) -> i32 {
        match self {
            DirectInputStatus::BufferOverflow => S_FALSE,
            DirectInputStatus::DownloadSkipped => DI_DOWNLOADSKIPPED,
            DirectInputStatus::EffectRestarted => DI_EFFECTRESTARTED,
            DirectInputStatus::NoEffect => S_FALSE,
            DirectInputStatus::NotAttached => S_FALSE,
            DirectInputStatus::Success => DI_OK,
            DirectInputStatus::PolledDevice => DI_POLLEDDEVICE,
            DirectInputStatus::PropNoEffect => S_FALSE,
            DirectInputStatus::SettingsNotSaved => DI_SETTINGSNOTSAVED,
            DirectInputStatus::Truncated => DI_TRUNCATED,
            DirectInputStatus::TruncatedAndRestarted => DI_TRUNCATEDANDRESTARTED,
            DirectInputStatus::WriteProtect => DI_WRITEPROTECT,
        }
    }

    /// Whether the status has a native code to itself, so that the code alone
    /// identifies it.
    pub open spec fn is_distinct(self) -> bool {
        self.native_code() != S_FALSE
    }

    /// The status that `code` identifies, if there is one.
    pub open spec fn recognized(code: i32) -> Option<DirectInputStatus> {
        if code == DI_DOWNLOADSKIPPED {
            Some(DirectInputStatus::DownloadSkipped)
        } else if code == DI_EFFECTRESTARTED {
            Some(DirectInputStatus::EffectRestarted)
        } else if code == DI_POLLEDDEVICE {
            Some(DirectInputStatus::PolledDevice)
        } else if code == DI_SETTINGSNOTSAVED {
            Some(DirectInputStatus::SettingsNotSaved)
        } else if code == DI_TRUNCATED {
            Some(DirectInputStatus::Truncated)
        } else if code == DI_TRUNCATEDANDRESTARTED {
            Some(DirectInputStatus::TruncatedAndRestarted)
        } else if code == DI_WRITEPROTECT {
            Some(DirectInputStatus::WriteProtect)
        } else if code == DI_OK {
            Some(DirectInputStatus::Success)
        } else {
            None
        }
    }

    /// The status that `hr` identifies. The statuses that share a code are
    /// never returned: the code cannot tell them apart.
    pub fn from_hresult(hr: i32) -> (status: Option<DirectInputStatus>)
        ensures
            status == Self::recognized(hr),
            status matches Some(s) ==> s.is_distinct() && s.native_code() == hr,
            status is None ==> forall|s: DirectInputStatus|
                s.is_distinct() ==> #[trigger] s.native_code() != hr,
    {
        if hr == DI_DOWNLOADSKIPPED {
            Some(DirectInputStatus::DownloadSkipped)
        } else if hr == DI_EFFECTRESTARTED {
            Some(DirectInputStatus::EffectRestarted)
        } else if hr == DI_POLLEDDEVICE {
            Some(DirectInputStatus::PolledDevice)
        } else if hr == DI_SETTINGSNOTSAVED {
            Some(DirectInputStatus::SettingsNotSaved)
        } else if hr == DI_TRUNCATED {
            Some(DirectInputStatus::Truncated)
        } else if hr == DI_TRUNCATEDANDRESTARTED {
            Some(DirectInputStatus::TruncatedAndRestarted)
        } else if hr == DI_WRITEPROTECT {
            Some(DirectInputStatus::WriteProtect)
        } else if hr == DI_OK {
            Some(DirectInputStatus::Success)
        } else {
            None
        }
    }

    /// The status that `hr` identifies, and plain `Success` where it identifies
    /// none.
    pub open spec fn recognized_or_ok(code: i32) -> DirectInputStatus {
        match Self::recognized(code) {
            Some(status) => status,
            None => DirectInputStatus::Success,
        }
    }

    /// As [`from_hresult`](Self::from_hresult), with `Success` for a code that
    /// identifies no status.
    pub fn from_hresult_or_ok(hr: i32) -> (status: DirectInputStatus)
        ensures
            status == Self::recognized_or_ok(hr),
    {
        match Self::from_hresult(hr) {
            Some(status) => status,
            None => DirectInputStatus::Success,
        }
    }
}

impl DirectInputError {
    /// The native code that stands for this error; `Unknown` stands for the
    /// code it carries. `HandleExists`, `OtherAppHasPrio` and `ReadOnly`
    /// share one code.
    pub open spec fn native_code(self) -> i32 {
        match self {
            DirectInputError::Acquired => DIERR_ACQUIRED,
            DirectInputError::AlreadyInitialized => DIERR_ALREADYINITIALIZED,
            DirectInputError::BadDriverVersion => DIERR_BADDRIVERVER,
            DirectInputError::BetaDirectInputVersion => DIERR_BETADIRECTINPUTVERSION,
            DirectInputError::DeviceFull => DIERR_DEVICEFULL,
            DirectInputError::DeviceNotReg => DIERR_DEVICENOTREG,
            DirectInputError::EffectPlaying => DIERR_EFFECTPLAYING,
            DirectInputError::Generic => E_FAIL,
            DirectInputError::Handle => E_HANDLE,
            DirectInputError::HandleExists => E_ACCESSDENIED,
            DirectInputError::HasEffects => DIERR_HASEFFECTS,
            DirectInputError::IncompleteEffect => DIERR_INCOMPLETEEFFECT,
            DirectInputError::InputLost => DIERR_INPUTLOST,
            DirectInputError::InvalidParam => DIERR_INVALIDPARAM,
            DirectInputError::InsufficientPrivs => DIERR_INSUFFICIENTPRIVS,
            DirectInputError::MapFileFail => DIERR_MAPFILEFAIL,
            DirectInputError::MoreData => DIERR_MOREDATA,
            DirectInputError::NoAggregation => DIERR_NOAGGREGATION,
            DirectInputError::NoInterface => DIERR_NOINTERFACE,
            DirectInputError::NotAcquired => DIERR_NOTACQUIRED,
            DirectInputError::NotBuffered => DIERR_NOTBUFFERED,
            DirectInputError::NotDownloaded => DIERR_NOTDOWNLOADED,
            DirectInputError::NotExclusiveAcquired => DIERR_NOTEXCLUSIVEACQUIRED,
            DirectInputError::NotInitialized => DIERR_NOTINITIALIZED,
            DirectInputError::ObjectNotFound => DIERR_OBJECTNOTFOUND,
            DirectInputError::OldDirectInputVersion => DIERR_OLDDIRECTINPUTVERSION,
            DirectInputError::OtherAppHasPrio => E_ACCESSDENIED,
            DirectInputError::OutOfMemory => DIERR_OUTOFMEMORY,
            DirectInputError::Pending => E_PENDING,
            DirectInputError::ReadOnly => E_ACCESSDENIED,
            DirectInputError::ReportFull => DIERR_REPORTFULL,
            DirectInputError::Unplugged => DIERR_UNPLUGGED,
            DirectInputError::Unsupported => DIERR_UNSUPPORTED,
            DirectInputError::Unknown(code) => code,
        }
    }

    /// Whether the code alone identifies this error. The three errors that
    /// share a code are not identified by it, and `Handle` is only ever
    /// reported where a call is refused before it is made.
    pub open spec fn is_mapped(self) -> bool {
        match self {
            DirectInputError::Handle => false,
            DirectInputError::HandleExists => false,
            DirectInputError::OtherAppHasPrio => false,
            DirectInputError::ReadOnly => false,
            DirectInputError::Unknown(_) => false,
            _ => true,
        }
    }

    /// The error that `code` identifies, if there is one.
    pub open spec fn recognized(code: i32) -> Option<DirectInputError> {
        if code == E_FAIL {
            Some(DirectInputError::Generic)
        } else if code == E_PENDING {
            Some(DirectInputError::Pending)
        } else if code == DIERR_ACQUIRED {
            Some(DirectInputError::Acquired)
        } else if code == DIERR_ALREADYINITIALIZED {
            Some(DirectInputError::AlreadyInitialized)
        } else if code == DIERR_BADDRIVERVER {
            Some(DirectInputError::BadDriverVersion)
        } else if code == DIERR_BETADIRECTINPUTVERSION {
            Some(DirectInputError::BetaDirectInputVersion)
        } else if code == DIERR_DEVICEFULL {
            Some(DirectInputError::DeviceFull)
        } else if code == DIERR_DEVICENOTREG {
            Some(DirectInputError::DeviceNotReg)
        } else if code == DIERR_EFFECTPLAYING {
            Some(DirectInputError::EffectPlaying)
        } else if code == DIERR_HASEFFECTS {
            Some(DirectInputError::HasEffects)
        } else if code == DIERR_INCOMPLETEEFFECT {
            Some(DirectInputError::IncompleteEffect)
        } else if code == DIERR_INPUTLOST {
            Some(DirectInputError::InputLost)
        } else if code == DIERR_INVALIDPARAM {
            Some(DirectInputError::InvalidParam)
        } else if code == DIERR_INSUFFICIENTPRIVS {
            Some(DirectInputError::InsufficientPrivs)
        } else if code == DIERR_MAPFILEFAIL {
            Some(DirectInputError::MapFileFail)
        } else if code == DIERR_MOREDATA {
            Some(DirectInputError::MoreData)
        } else if code == DIERR_NOAGGREGATION {
            Some(DirectInputError::NoAggregation)
        } else if code == DIERR_NOINTERFACE {
            Some(DirectInputError::NoInterface)
        } else if code == DIERR_NOTACQUIRED {
            Some(DirectInputError::NotAcquired)
        } else if code == DIERR_NOTBUFFERED {
            Some(DirectInputError::NotBuffered)
        } else if code == DIERR_NOTDOWNLOADED {
            Some(DirectInputError::NotDownloaded)
        } else if code == DIERR_NOTEXCLUSIVEACQUIRED {
            Some(DirectInputError::NotExclusiveAcquired)
        } else if code == DIERR_NOTINITIALIZED {
            Some(DirectInputError::NotInitialized)
        } else if code == DIERR_OBJECTNOTFOUND {
            Some(DirectInputError::ObjectNotFound)
        } else if code == DIERR_OLDDIRECTINPUTVERSION {
            Some(DirectInputError::OldDirectInputVersion)
        } else if code == DIERR_OUTOFMEMORY {
            Some(DirectInputError::OutOfMemory)
        } else if code == DIERR_REPORTFULL {
            Some(DirectInputError::ReportFull)
        } else if code == DIERR_UNPLUGGED {
            Some(DirectInputError::Unplugged)
        } else if code == DIERR_UNSUPPORTED {
            Some(DirectInputError::Unsupported)
        } else {
            None
        }
    }

    /// The error that stands for `code`: the one it identifies, or `Unknown`
    /// with the code inside.
    pub open spec fn of_code(code: i32) -> DirectInputError {
        match Self::recognized(code) {
            Some(error) => error,
            None => DirectInputError::Unknown(code),
        }
    }

    /// The error that `hr` identifies, if there is one.
    pub fn hresult_matches(hr: i32) -> (error: Option<DirectInputError>)
        ensures
            error == Self::recognized(hr),
            error matches Some(e) ==> e.is_mapped() && e.native_code() == hr,
            error is None ==> forall|e: DirectInputError|
                e.is_mapped() ==> #[trigger] e.native_code() != hr,
    {
        if hr == E_FAIL {
            Some(DirectInputError::Generic)
        } else if hr == E_PENDING {
            Some(DirectInputError::Pending)
        } else if hr == DIERR_ACQUIRED {
            Some(DirectInputError::Acquired)
        } else if hr == DIERR_ALREADYINITIALIZED {
            Some(DirectInputError::AlreadyInitialized)
        } else if hr == DIERR_BADDRIVERVER {
            Some(DirectInputError::BadDriverVersion)
        } else if hr == DIERR_BETADIRECTINPUTVERSION {
            Some(DirectInputError::BetaDirectInputVersion)
        } else if hr == DIERR_DEVICEFULL {
            Some(DirectInputError::DeviceFull)
        } else if hr == DIERR_DEVICENOTREG {
            Some(DirectInputError::DeviceNotReg)
        } else if hr == DIERR_EFFECTPLAYING {
            Some(DirectInputError::EffectPlaying)
        } else if hr == DIERR_HASEFFECTS {
            Some(DirectInputError::HasEffects)
        } else if hr == DIERR_INCOMPLETEEFFECT {
            Some(DirectInputError::IncompleteEffect)
        } else if hr == DIERR_INPUTLOST {
            Some(DirectInputError::InputLost)
        } else if hr == DIERR_INVALIDPARAM {
            Some(DirectInputError::InvalidParam)
        } else if hr == DIERR_INSUFFICIENTPRIVS {
            Some(DirectInputError::InsufficientPrivs)
        } else if hr == DIERR_MAPFILEFAIL {
            Some(DirectInputError::MapFileFail)
        } else if hr == DIERR_MOREDATA {
            Some(DirectInputError::MoreData)
        } else if hr == DIERR_NOAGGREGATION {
            Some(DirectInputError::NoAggregation)
        } else if hr == DIERR_NOINTERFACE {
            Some(DirectInputError::NoInterface)
        } else if hr == DIERR_NOTACQUIRED {
            Some(DirectInputError::NotAcquired)
        } else if hr == DIERR_NOTBUFFERED {
            Some(DirectInputError::NotBuffered)
        } else if hr == DIERR_NOTDOWNLOADED {
            Some(DirectInputError::NotDownloaded)
        } else if hr == DIERR_NOTEXCLUSIVEACQUIRED {
            Some(DirectInputError::NotExclusiveAcquired)
        } else if hr == DIERR_NOTINITIALIZED {
            Some(DirectInputError::NotInitialized)
        } else if hr == DIERR_OBJECTNOTFOUND {
            Some(DirectInputError::ObjectNotFound)
        } else if hr == DIERR_OLDDIRECTINPUTVERSION {
            Some(DirectInputError::OldDirectInputVersion)
        } else if hr == DIERR_OUTOFMEMORY {
            Some(DirectInputError::OutOfMemory)
        } else if hr == DIERR_REPORTFULL {
            Some(DirectInputError::ReportFull)
        } else if hr == DIERR_UNPLUGGED {
            Some(DirectInputError::Unplugged)
        } else if hr == DIERR_UNSUPPORTED {
            Some(DirectInputError::Unsupported)
        } else {
            None
        }
    }

    /// The error that stands for `hr`. A code that identifies no error comes
    /// back inside `Unknown`, unchanged.
    pub fn from_hresult(hr: i32) -> (error: DirectInputError)
        ensures
            error == Self::of_code(hr),
            error.native_code() == hr,
            error is Unknown <==> Self::recognized(hr) is None,
    {
        match Self::hresult_matches(hr) {
            Some(error) => error,
            None => DirectInputError::Unknown(hr),
        }
    }

    /// The error that stands for the Win32 error code `error`, as the thread
    /// reported it last.
    pub fn from_last_error(error: u32) -> (e: DirectInputError)
        ensures
            e == Self::of_code(win32_hresult(error) as i32),
            e.native_code() == win32_hresult(error),
    {
        Self::from_hresult(hresult_from_win32(error))
    }
}

impl From<windows_core::Error> for DirectInputError {
    /// The error that stands for the result code inside `value`.
    fn from(value: windows_core::Error) -> (error: DirectInputError) {
        DirectInputError::from_hresult(code_of(&value))
    }
}

impl vstd::std_specs::convert::FromSpecImpl<windows_core::Error> for DirectInputError {
    open spec fn obeys_from_spec() -> bool {
        true
    }

    open spec fn from_spec(value: windows_core::Error) -> DirectInputError {
        DirectInputError::of_code(error_code(value))
    }
}

/// Every error that a code identifies is what its own code is read as, and
/// no two such errors have the same code.
pub proof fn law_recognized_codes_map_to_their_variant(a: DirectInputError, b: DirectInputError)
    requires
        a.is_mapped(),
        b.is_mapped(),
    ensures
        DirectInputError::recognized(a.native_code()) == Some(a),
        DirectInputError::of_code(a.native_code()) == a,
        a.native_code() == b.native_code() ==> a == b,
{
}

/// Reading a code as an error and taking the code of that error gives the code
/// that went in. A code that identifies no error is carried by `Unknown`, and
/// two different codes never give the same error.
pub proof fn law_codes_round_trip(code: i32, other: i32)
    ensures
        DirectInputError::of_code(code).native_code() == code,
        DirectInputError::recognized(code) is None ==> DirectInputError::of_code(code)
            == DirectInputError::Unknown(code),
        DirectInputError::of_code(code) == DirectInputError::of_code(other) ==> code == other,
{
}

/// Every status with a code of its own is what that code is read as, no two
/// of them have the same code, and a code that identifies none of them is
/// read as plain success.
pub proof fn law_status_codes(a: DirectInputStatus, b: DirectInputStatus, code: i32)
    requires
        a.is_distinct(),
        b.is_distinct(),
    ensures
        DirectInputStatus::recognized(a.native_code()) == Some(a),
        a.native_code() == b.native_code() ==> a == b,
        DirectInputStatus::recognized(code) matches Some(s) ==> s.native_code() == code,
        DirectInputStatus::recognized(code) is None ==> DirectInputStatus::recognized_or_ok(code)
            == DirectInputStatus::Success,
{
}

} // verus!
