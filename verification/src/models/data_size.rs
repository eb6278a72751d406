use crate::text::{chars_of, parse_u32, parse_u32_spec, string_from_chars};
use vstd::prelude::*;

verus! {

/// The number of bytes that a unit letter stands for: `B`, `K`, `M`, `G` and
/// `T` are powers of 1024.
pub open spec fn unit_bytes(c: char) -> Option<nat> {
    if c == 'B' {
        Some(1)
    } else if c == 'K' {
        Some(1024)
    } else if c == 'M' {
        Some(1024 * 1024)
    } else if c == 'G' {
        Some(1024 * 1024 * 1024)
    } else if c == 'T' {
        Some(1024 * 1024 * 1024 * 1024)
    } else {
        None
    }
}

/// What a size text such as `4G` reads as: a decimal count followed by one
/// unit letter, whose product must fit in `usize`.
pub open spec fn data_size_parse(text: Seq<char>) -> Option<nat> {
    if text.len() == 0 {
        None
    } else {
        match (parse_u32_spec(text.drop_last()), unit_bytes(text.last())) {
            (Some(n), Some(unit)) => if (n as nat) * unit <= usize::MAX {
                Some((n as nat) * unit)
            } else {
                None
            },
            _ => None,
        }
    }
}

/// The reason given for a text that is not a size.
pub open spec fn data_size_rejection() -> Seq<char> {
    "Size must be a number followed by one of the units B, K, M, G or T (e.g. 4G)"@
}

fn unit_bytes_exec(c: char) -> (r: Option<u64>)
    ensures
        r matches Some(b) ==> unit_bytes(c) == Some(b as nat),
        r is None ==> unit_bytes(c) is None,
{
    if c == 'B' {
        Some(1)
    } else if c == 'K' {
        Some(1024)
    } else if c == 'M' {
        Some(1024 * 1024)
    } else if c == 'G' {
        Some(1024 * 1024 * 1024)
    } else if c == 'T' {
        Some(1024 * 1024 * 1024 * 1024)
    } else {
        None
    }
}

/// An amount of memory or disk space in bytes.
#[derive(Clone, Copy, Debug, PartialEq, Eq, Structural)]
pub struct DataSize {
    bytes: usize,
}

impl View for DataSize {
    type V = nat;

    closed spec fn view(&self) -> nat {
        self.bytes as nat
    }
}

impl DataSize {
    /// An amount of `bytes` bytes.
    pub fn new(bytes: usize) -> (r: DataSize)
        ensures
            r@ == bytes,
    {
        DataSize { bytes }
    }

    /// Reads a size such as `4G`: a decimal count followed by a unit letter.
    pub fn from_str(text: &str) -> (r: Result<DataSize, String>)
        ensures
            r is Ok <==> data_size_parse(text@) is Some,
            r matches Ok(d) ==> data_size_parse(text@) == Some(d@),
            r matches Err(e) ==> e@ == data_size_rejection(),
    {
        let v = chars_of(text);
        if v.len() == 0 {
            return Err(DataSize::rejection());
        }
        let count_text = string_from_chars(vstd::slice::slice_subrange(v.as_slice(), 0, v.len() - 1));
        assert(count_text@ =~= text@.drop_last());
        let count = parse_u32(count_text.as_str());
        let unit = unit_bytes_exec(v[v.len() - 1]);
        match (count, unit) {
            (Some(n), Some(b)) => {
                let n128 = n as u128;
                let b128 = b as u128;
                assert(n128 * b128 <= 0xffff_ffff_u128 * 0x100_0000_0000_u128) by (nonlinear_arith)
                    requires
                        n128 <= 0xffff_ffff_u128,
                        b128 <= 0x100_0000_0000_u128,
                ;
                let bytes = n128 * b128;
                if bytes <= usize::MAX as u128 {
                    Ok(DataSize { bytes: bytes as usize })
                } else {
                    Err(DataSize::rejection())
                }
            },
            _ => Err(DataSize::rejection()),
        }
    }

    fn rejection() -> (r: String)
        ensures
            r@ == data_size_rejection(),
    {
        "Size must be a number followed by one of the units B, K, M, G or T (e.g. 4G)".to_owned()
    }

    /// The amount in bytes.
    pub fn get_bytes(&self) -> (r: usize)
        ensures
            r == self@,
    {
        self.bytes
    }
}

} // verus!
