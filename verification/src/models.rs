//! Models: the reference-counted static-data resources of the engine.
//!
//! A model wrapper holds one validated non-null handle.  Loading happens in
//! the embedding layer (it is a native call); the decisions around that call
//! are here: a path is checked for embedded terminators before it is handed
//! to the native loader, and the loader's raw result is checked for null.
use crate::errors::LoadError;
use crate::handle::NativeHandle;
use vstd::prelude::*;
use vstd::string::StrSliceExecFns;

verus! {

/// Whether `s` can be handed to the native layer as a C string: true exactly
/// when it contains no embedded terminator character.
pub open spec fn spec_c_string_safe(s: Seq<char>) -> bool {
    forall|i: int| 0 <= i < s.len() ==> s[i] != '\0'
}

/// Checks a caller-supplied string for embedded terminator characters,
/// which the native string encoding cannot represent.
pub fn c_string_safe(s: &str) -> (b: bool)
    ensures
        b == spec_c_string_safe(s@),
{
    let n: usize = s.unicode_len();
    let mut i: usize = 0;
    while i < n
        invariant
            n == s@.len(),
            0 <= i <= n,
            forall|j: int| 0 <= j < i ==> s@[j] != '\0',
        decreases n - i,
    {
        if s.get_char(i) == '\0' {
            return false;
        }
        i += 1;
    }
    true
}

/// Validates a loader path before it is handed to a native loader: fails
/// with [`LoadError::Encoding`] exactly when the path contains an embedded
/// terminator, so that no native call is attempted for such a path.
pub fn check_load_path(path: &str) -> (r: Result<(), LoadError>)
    ensures
        r is Ok <==> spec_c_string_safe(path@),
        r is Err ==> r == Err::<(), LoadError>(LoadError::Encoding),
{
    if c_string_safe(path) {
        Ok(())
    } else {
        Err(LoadError::Encoding)
    }
}

/// The word symbol that corresponds to a raw lookup result of the native
/// word table: `-1` encodes "not found", every other value is the symbol,
/// reduced to the 16-bit range the symbol table uses.
pub open spec fn spec_word_symbol(value: int) -> Option<u16> {
    if value == -1 {
        None
    } else {
        Some((value % 0x10000) as u16)
    }
}

/// Interprets the integer a native word lookup returned.  Symbol `0` is
/// reserved for the empty (epsilon) symbol; an absent word is reported as
/// `-1` by the engine and becomes `None` here, never an error.
pub fn word_symbol_from_native(value: i32) -> (r: Option<u16>)
    ensures
        r == spec_word_symbol(value as int),
{
    if value == -1 {
        None
    } else {
        match value.checked_rem_euclid(0x10000) {
            Some(m) => Some(m as u16),
            None => None,
        }
    }
}

/// Model that stores all the data required for recognition.
///
/// The engine reference-counts the underlying resource, so the native data
/// stays alive as long as any recognizer built from it is alive, even after
/// this wrapper is released.
#[derive(Debug)]
pub struct Model {
    handle: NativeHandle,
}

impl Model {
    /// The address of the wrapped native handle.
    pub closed spec fn addr_spec(&self) -> usize {
        self.handle.addr_spec()
    }

    /// Validates the raw result of the native model loader: null means the
    /// load failed and is reported as [`LoadError::Acquisition`]; no resource
    /// is held in that case.
    pub fn from_raw(addr: usize) -> (r: Result<Model, LoadError>)
        ensures
            r is Ok <==> addr != 0,
            r matches Ok(m) ==> m.addr_spec() == addr,
            addr == 0 ==> r == Err::<Model, LoadError>(LoadError::Acquisition),
    {
        match NativeHandle::new(addr) {
            Some(handle) => Ok(Model { handle }),
            None => Err(LoadError::Acquisition),
        }
    }

    /// The wrapped address, always non-null.
    pub fn addr(&self) -> (r: usize)
        ensures
            r == self.addr_spec(),
            r != 0,
    {
        self.handle.addr()
    }
}

/// The same as [`Model`] but contains the data for speaker identification.
#[derive(Debug)]
pub struct SpeakerModel {
    handle: NativeHandle,
}

impl SpeakerModel {
    /// The address of the wrapped native handle.
    pub closed spec fn addr_spec(&self) -> usize {
        self.handle.addr_spec()
    }

    /// Validates the raw result of the native speaker-model loader, exactly
    /// as [`Model::from_raw`] does.
    pub fn from_raw(addr: usize) -> (r: Result<SpeakerModel, LoadError>)
        ensures
            r is Ok <==> addr != 0,
            r matches Ok(m) ==> m.addr_spec() == addr,
            addr == 0 ==> r == Err::<SpeakerModel, LoadError>(LoadError::Acquisition),
    {
        match NativeHandle::new(addr) {
            Some(handle) => Ok(SpeakerModel { handle }),
            None => Err(LoadError::Acquisition),
        }
    }

    /// The wrapped address, always non-null.
    pub fn addr(&self) -> (r: usize)
        ensures
            r == self.addr_spec(),
            r != 0,
    {
        self.handle.addr()
    }
}

/// The same as [`Model`], but for the GPU-batched runtime: used by batch
/// recognizers, and offers a blocking wait for outstanding inference work
/// (the wait itself is a native call made by the embedding layer).
#[derive(Debug)]
pub struct BatchModel {
    handle: NativeHandle,
}

impl BatchModel {
    /// The address of the wrapped native handle.
    pub closed spec fn addr_spec(&self) -> usize {
        self.handle.addr_spec()
    }

    /// Validates the raw result of the native batch-model loader, exactly
    /// as [`Model::from_raw`] does.
    pub fn from_raw(addr: usize) -> (r: Result<BatchModel, LoadError>)
        ensures
            r is Ok <==> addr != 0,
            r matches Ok(m) ==> m.addr_spec() == addr,
            addr == 0 ==> r == Err::<BatchModel, LoadError>(LoadError::Acquisition),
    {
        match NativeHandle::new(addr) {
            Some(handle) => Ok(BatchModel { handle }),
            None => Err(LoadError::Acquisition),
        }
    }

    /// The wrapped address, always non-null.
    pub fn addr(&self) -> (r: usize)
        ensures
            r == self.addr_spec(),
            r != 0,
    {
        self.handle.addr()
    }
}

} // verus!
