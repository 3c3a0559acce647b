use vstd::prelude::*;

verus! {

/// Size budget, in bytes, of the continuation snapshot: the platform's limit of
/// about 100 KiB on the migration parameters, minus headroom for the fields
/// the system adds around it.
pub const CONTINUATION_DATA_MAX_BYTES: usize = 98304;

/// Errors of the continuation commands.
#[derive(Clone, Copy, Debug, PartialEq, Eq, Structural)]
pub enum Error {
    /// The snapshot is larger than [`CONTINUATION_DATA_MAX_BYTES`].
    PayloadTooLarge,
}

/// Whether the current launch is an app-continuation restore, from what the
/// continuation facade answered (`None` when the app instance is not
/// available, which reads as "not a restore").
pub fn is_continuation_restore(answer: Option<bool>) -> (r: bool)
    ensures
        r == (answer == Some(true)),
{
    match answer {
        Some(b) => b,
        None => false,
    }
}

/// The continuation payload handed to the caller, from what taking it from the
/// facade gave (`None` when the app instance is not available). An empty
/// payload means there is none; any other is passed through verbatim.
pub fn get_continuation_data(taken: Option<String>) -> (r: Option<String>)
    ensures
        match taken {
            Some(data) => if data@.len() == 0 {
                r is None
            } else {
                r matches Some(d) && d@ == data@
            },
            None => r is None,
        },
{
    let data = match taken {
        Some(d) => d,
        None => String::new(),
    };
    if data.as_str().is_empty() {
        None
    } else {
        Some(data)
    }
}

/// The number of bytes of the UTF-8 encoding of `s`.
pub open spec fn utf8_len(s: Seq<char>) -> nat {
    vstd::utf8::encode_utf8(s).len()
}

/// The snapshot to register for a future migration, or the error when it is
/// over the size budget (measured in UTF-8 bytes). The snapshot is registered
/// verbatim; an empty one clears what was registered.
pub fn set_continuation_data(data: String) -> (r: Result<String, Error>)
    ensures
        match r {
            Ok(snapshot) => snapshot@ == data@ && utf8_len(data@)
                <= CONTINUATION_DATA_MAX_BYTES,
            Err(e) => e == Error::PayloadTooLarge && utf8_len(data@)
                > CONTINUATION_DATA_MAX_BYTES,
        },
{
    if data.as_str().as_bytes().len() > CONTINUATION_DATA_MAX_BYTES {
        return Err(Error::PayloadTooLarge);
    }
    Ok(data)
}

} // verus!
