use vstd::prelude::*;

verus! {

/// A CPU architecture of a VM image.
#[derive(Clone, Copy, Debug, PartialEq, Eq, Structural, Hash)]
pub enum Arch {
    AMD64,
    ARM64,
}

impl Arch {
    /// The written name of the architecture.
    pub open spec fn name_spec(self) -> Seq<char> {
        match self {
            Arch::AMD64 => seq!['a', 'm', 'd', '6', '4'],
            Arch::ARM64 => seq!['a', 'r', 'm', '6', '4'],
        }
    }

    /// The architecture written as `text`, if any.
    pub open spec fn from_name_spec(text: Seq<char>) -> Option<Arch> {
        if text == Arch::AMD64.name_spec() {
            Some(Arch::AMD64)
        } else if text == Arch::ARM64.name_spec() {
            Some(Arch::ARM64)
        } else {
            None
        }
    }

    /// The written name (`amd64` or `arm64`).
    pub fn to_string(&self) -> (r: String)
        ensures
            r@ == self.name_spec(),
    {
        match self {
            Arch::AMD64 => {
                proof { reveal_strlit("amd64"); }
                "amd64".to_owned()
            },
            Arch::ARM64 => {
                proof { reveal_strlit("arm64"); }
                "arm64".to_owned()
            },
        }
    }

    /// The name the image vendors use for the architecture in file names.
    pub fn as_vendor_str(&self) -> (r: &'static str)
        ensures
            r@ == self.name_spec(),
    {
        match self {
            Arch::AMD64 => {
                proof { reveal_strlit("amd64"); }
                "amd64"
            },
            Arch::ARM64 => {
                proof { reveal_strlit("arm64"); }
                "arm64"
            },
        }
    }

    /// Reads an architecture from its written name.
    pub fn from_name(text: &str) -> (r: Option<Arch>)
        ensures
            r == Arch::from_name_spec(text@),
    {
        let amd = crate::text::str_eq(text, "amd64");
        let arm = crate::text::str_eq(text, "arm64");
        proof {
            reveal_strlit("amd64");
            reveal_strlit("arm64");
            assert("amd64"@ =~= Arch::AMD64.name_spec());
            assert("arm64"@ =~= Arch::ARM64.name_spec());
        }
        if amd {
            Some(Arch::AMD64)
        } else if arm {
            Some(Arch::ARM64)
        } else {
            None
        }
    }
}

} // verus!
