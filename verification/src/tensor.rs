//! Sizing the model's input and output tensors from the byte counts the
//! TensorFlow Lite runtime reports.

use vstd::prelude::*;

verus! {

/// Which side of the model a tensor is on.
#[derive(Debug, Clone, Copy, PartialEq, Eq, Structural)]
pub enum TensorKind {
    Input,
    Output,
}

/// Why a tensor could not be viewed as a slice of elements.
#[derive(Debug, Clone, Copy, PartialEq, Eq, Structural)]
pub enum TensorError {
    /// The runtime has no tensor at this index.
    NotFound { kind: TensorKind, index: i32 },
    /// The runtime reported a negative byte count.
    SizeUnavailable { kind: TensorKind, index: i32 },
    /// The element type has size zero.
    ZeroSizedElement,
    /// The byte count is not a whole number of elements.
    Misaligned { kind: TensorKind, index: i32, bytes: usize, elem_size: usize },
}

/// Number of `elem_size`-byte elements in tensor `index`, whose byte count
/// the runtime reported as `bytes` (`None` when it has no such tensor).
pub fn tensor_len(kind: TensorKind, index: i32, bytes: Option<i32>, elem_size: usize) -> (r: Result<
    usize,
    TensorError,
>)
    ensures
        bytes is None ==> r == Err::<usize, TensorError>(TensorError::NotFound { kind, index }),
        bytes matches Some(b) && b < 0 ==> r == Err::<usize, TensorError>(
            TensorError::SizeUnavailable { kind, index },
        ),
        bytes matches Some(b) && b >= 0 && elem_size == 0 ==> r == Err::<usize, TensorError>(
            TensorError::ZeroSizedElement,
        ),
        bytes matches Some(b) && b >= 0 && elem_size > 0 && (b as int) % (elem_size as int) != 0 ==> r == Err::<
            usize,
            TensorError,
        >(TensorError::Misaligned { kind, index, bytes: bytes->Some_0 as usize, elem_size }),
        r is Ok <==> (bytes matches Some(b) && b >= 0 && elem_size > 0 && (b as int) % (elem_size as int) == 0),
        r matches Ok(n) ==> n == (bytes->Some_0 as int) / (elem_size as int),
        r matches Ok(n) ==> n * elem_size == bytes->Some_0,
{
    let b = match bytes {
        None => {
            return Err(TensorError::NotFound { kind, index });
        },
        Some(b) => b,
    };
    if b < 0 {
        return Err(TensorError::SizeUnavailable { kind, index });
    }
    if elem_size == 0 {
        return Err(TensorError::ZeroSizedElement);
    }
    let byte_count = b as usize;
    if byte_count % elem_size != 0 {
        return Err(TensorError::Misaligned { kind, index, bytes: byte_count, elem_size });
    }
    proof {
        vstd::arithmetic::div_mod::lemma_fundamental_div_mod(byte_count as int, elem_size as int);
    }
    Ok(byte_count / elem_size)
}

} // verus!
