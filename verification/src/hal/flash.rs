//! Flash storage keys and errors.
//!
//! Configuration data is stored in flash as wear-leveled key-value pairs;
//! these keys identify the kinds of data stored.

use vstd::prelude::*;

verus! {

/// Storage keys for configuration data
#[derive(Debug, Clone, Copy, PartialEq, Eq, Structural)]
pub enum StorageKey {
    /// Complete machine configuration (binary postcard format), byte 0
    MachineConfig,
    /// Machine configuration as TOML text, byte 1
    MachineConfigToml,
    /// PID calibration data for heaters, byte 2
    PidCalibration,
    /// Reserved for future use, byte 3
    Reserved3,
    /// Reserved for future use, byte 4
    Reserved4,
}

/// The byte that identifies a key in storage.
pub open spec fn key_byte(k: StorageKey) -> u8 {
    match k {
        StorageKey::MachineConfig => 0,
        StorageKey::MachineConfigToml => 1,
        StorageKey::PidCalibration => 2,
        StorageKey::Reserved3 => 3,
        StorageKey::Reserved4 => 4,
    }
}

impl StorageKey {
    /// Get the key as a byte value
    pub fn as_u8(self) -> (r: u8)
        ensures
            r == key_byte(self),
    {
        match self {
            StorageKey::MachineConfig => 0,
            StorageKey::MachineConfigToml => 1,
            StorageKey::PidCalibration => 2,
            StorageKey::Reserved3 => 3,
            StorageKey::Reserved4 => 4,
        }
    }

    /// Create a key from a byte value
    pub fn from_u8(value: u8) -> (r: Option<Self>)
        ensures
            r is Some <==> value <= 4,
            r matches Some(k) ==> key_byte(k) == value,
    {
        match value {
            0 => Some(StorageKey::MachineConfig),
            1 => Some(StorageKey::MachineConfigToml),
            2 => Some(StorageKey::PidCalibration),
            3 => Some(StorageKey::Reserved3),
            4 => Some(StorageKey::Reserved4),
            _ => None,
        }
    }
}

/// A key survives the round trip through its byte, and distinct keys have
/// distinct bytes.
pub proof fn lemma_key_byte_round_trip(k: StorageKey, j: StorageKey)
    ensures
        key_byte(k) <= 4,
        key_byte(k) == key_byte(j) ==> k == j,
{
}

/// Errors from flash storage operations
#[derive(Debug, Clone, Copy, PartialEq, Eq, Structural)]
pub enum FlashError {
    /// Flash operation failed
    Flash,
    /// Storage operation failed
    Storage,
    /// Key not found
    NotFound,
    /// Buffer too small for the data
    BufferTooSmall,
    /// Data corrupted or invalid
    Corrupted,
    /// Storage is full
    Full,
}


/// Why a storage key could not be written to or read from a buffer
#[derive(Debug, Clone, Copy, PartialEq, Eq, Structural)]
pub enum KeyCodecError {
    /// The buffer has no room for the key
    BufferTooSmall,
    /// The bytes do not name a key
    InvalidFormat,
}

impl StorageKey {
    /// Write the key as one byte at the start of `buffer`; the number of
    /// bytes written
    pub fn serialize_into(&self, buffer: &mut [u8]) -> (r: Result<usize, KeyCodecError>)
        ensures
            old(buffer)@.len() == 0 ==> r == Err::<usize, KeyCodecError>(KeyCodecError::BufferTooSmall)
                && final(buffer)@ == old(buffer)@,
            old(buffer)@.len() > 0 ==> r == Ok::<usize, KeyCodecError>(1) && final(buffer)@ == old(
                buffer,
            )@.update(0, key_byte(*self)),
    {
        if buffer.len() == 0 {
            return Err(KeyCodecError::BufferTooSmall);
        }
        buffer[0] = self.as_u8();
        Ok(1)
    }

    /// Read a key from the first byte of `buffer`, with the number of bytes
    /// it took
    pub fn deserialize_from(buffer: &[u8]) -> (r: Result<(StorageKey, usize), KeyCodecError>)
        ensures
            buffer@.len() == 0 ==> r == Err::<(StorageKey, usize), KeyCodecError>(KeyCodecError::BufferTooSmall),
            buffer@.len() > 0 && buffer@[0] > 4 ==> r == Err::<(StorageKey, usize), KeyCodecError>(
                KeyCodecError::InvalidFormat,
            ),
            buffer@.len() > 0 && buffer@[0] <= 4 ==> (r matches Ok((k, n)) && n == 1 && key_byte(k) == buffer@[0]),
    {
        if buffer.len() == 0 {
            return Err(KeyCodecError::BufferTooSmall);
        }
        match StorageKey::from_u8(buffer[0]) {
            Some(key) => Ok((key, 1)),
            None => Err(KeyCodecError::InvalidFormat),
        }
    }
}

/// A key read back from the byte it was written as is the same key.
pub proof fn lemma_key_codec_round_trip(k: StorageKey, j: StorageKey)
    requires
        key_byte(j) == key_byte(k),
    ensures
        j == k,
{
}

/// The outcome of copying a stored item of `len` bytes into a buffer of
/// `capacity` bytes.
pub open spec fn copy_out_spec(item: Option<Seq<u8>>, capacity: nat) -> Result<usize, FlashError> {
    match item {
        None => Err(FlashError::NotFound),
        Some(data) => if capacity < data.len() {
            Err(FlashError::BufferTooSmall)
        } else {
            Ok(data.len() as usize)
        },
    }
}

/// Hand a fetched item to the caller's buffer: not found without an item,
/// too small when it does not fit, otherwise the item's bytes are copied
/// to the front of the buffer and its length returned.
pub fn copy_fetched(item: Option<&[u8]>, buffer: &mut [u8]) -> (r: Result<usize, FlashError>)
    ensures
        r == copy_out_spec(
            match item {
                Some(d) => Some(d@),
                None => None,
            },
            old(buffer)@.len(),
        ),
        final(buffer)@.len() == old(buffer)@.len(),
        r matches Ok(n) ==> final(buffer)@.subrange(0, n as int) == item->0@ && final(buffer)@.subrange(
            n as int,
            old(buffer)@.len() as int,
        ) == old(buffer)@.subrange(n as int, old(buffer)@.len() as int),
        r is Err ==> final(buffer)@ == old(buffer)@,
{
    let data = match item {
        Some(d) => d,
        None => {
            return Err(FlashError::NotFound);
        },
    };
    let len = data.len();
    if buffer.len() < len {
        return Err(FlashError::BufferTooSmall);
    }
    let mut i: usize = 0;
    while i < len
        invariant
            len == data@.len(),
            len <= buffer@.len(),
            buffer@.len() == old(buffer)@.len(),
            i <= len,
            forall|k: int| 0 <= k < i ==> buffer@[k] == data@[k],
            forall|k: int| len <= k < buffer@.len() ==> buffer@[k] == old(buffer)@[k],
        decreases len - i,
    {
        buffer[i] = data[i];
        i = i + 1;
    }
    assert(buffer@.subrange(0, len as int) =~= data@);
    assert(buffer@.subrange(len as int, buffer@.len() as int) =~= old(buffer)@.subrange(
        len as int,
        old(buffer)@.len() as int,
    ));
    Ok(len)
}

} // verus!
