use vstd::prelude::*;

use crate::sys::same_text;

verus! {

/// Processor architectures.
#[derive(Clone, Copy, Debug, PartialEq, Eq, Structural)]
pub enum Architecture {
    Amd64,
    Arm,
    Arm64,
    Unknown,
}

/// The names of an architecture, the canonical one first.
pub open spec fn architecture_names(a: Architecture) -> Seq<Seq<char>> {
    match a {
        Architecture::Amd64 => seq!["amd64"@, "x64"@, "x86_64"@],
        Architecture::Arm => seq!["arm"@],
        Architecture::Arm64 => seq!["aarch64"@, "arm64"@],
        Architecture::Unknown => seq!["unknown"@],
    }
}

/// The architecture that has `s` among its names; `Unknown` where none has.
pub open spec fn architecture_named(s: Seq<char>) -> Architecture {
    if s == "amd64"@ || s == "x64"@ || s == "x86_64"@ {
        Architecture::Amd64
    } else if s == "arm"@ {
        Architecture::Arm
    } else if s == "aarch64"@ || s == "arm64"@ {
        Architecture::Arm64
    } else {
        Architecture::Unknown
    }
}

/// The architecture of a target processor, named as Rust names it (`x86_64`, `arm`,
/// `aarch64`); `Unknown` for any other.
pub open spec fn architecture_of_target(arch: Seq<char>) -> Architecture {
    if arch == "x86_64"@ {
        Architecture::Amd64
    } else if arch == "arm"@ {
        Architecture::Arm
    } else if arch == "aarch64"@ {
        Architecture::Arm64
    } else {
        Architecture::Unknown
    }
}

/// Each name of an architecture is read back as that architecture; in particular its
/// canonical name, which `to_string` gives, is.
pub proof fn lemma_architecture_names_round_trip(a: Architecture)
    ensures
        forall|i: int|
            0 <= i < architecture_names(a).len() ==> architecture_named(
                #[trigger] architecture_names(a)[i],
            ) == a,
        architecture_named(architecture_names(a)[0]) == a,
{
    reveal_strlit("amd64");
    reveal_strlit("x64");
    reveal_strlit("x86_64");
    reveal_strlit("arm");
    reveal_strlit("aarch64");
    reveal_strlit("arm64");
    reveal_strlit("unknown");
    assert("amd64"@ =~= seq!['a', 'm', 'd', '6', '4']);
    assert("x64"@ =~= seq!['x', '6', '4']);
    assert("x86_64"@ =~= seq!['x', '8', '6', '_', '6', '4']);
    assert("arm"@ =~= seq!['a', 'r', 'm']);
    assert("aarch64"@ =~= seq!['a', 'a', 'r', 'c', 'h', '6', '4']);
    assert("arm64"@ =~= seq!['a', 'r', 'm', '6', '4']);
    assert("unknown"@ =~= seq!['u', 'n', 'k', 'n', 'o', 'w', 'n']);
}

impl Architecture {
    /// The architecture of the target processor `arch`, named as Rust names it
    /// (`std::env::consts::ARCH`): `x86_64`, `arm` and `aarch64` are known, any other name
    /// gives `Unknown`.
    pub fn detect(arch: &str) -> (r: Architecture)
        ensures
            r == architecture_of_target(arch@),
    {
        if same_text(arch, "x86_64") {
            Architecture::Amd64
        } else if same_text(arch, "arm") {
            Architecture::Arm
        } else if same_text(arch, "aarch64") {
            Architecture::Arm64
        } else {
            Architecture::Unknown
        }
    }

    /// The names of the architecture, the canonical one first.
    pub fn value(&self) -> (r: Vec<String>)
        ensures
            r@.len() == architecture_names(*self).len(),
            forall|i: int| 0 <= i < r@.len() ==> #[trigger] r@[i]@ == architecture_names(*self)[i],
    {
        match self {
            Architecture::Amd64 => vec![
                String::from_str("amd64"),
                String::from_str("x64"),
                String::from_str("x86_64"),
            ],
            Architecture::Arm => vec![String::from_str("arm")],
            Architecture::Arm64 => vec![String::from_str("aarch64"), String::from_str("arm64")],
            Architecture::Unknown => vec![String::from_str("unknown")],
        }
    }

    /// The canonical name of the architecture.
    pub fn to_string(&self) -> (r: String)
        ensures
            r@ == architecture_names(*self)[0],
    {
        let names = self.value();
        names[0].clone()
    }
}

impl From<&str> for Architecture {
    /// The architecture that has `v` among its names; `Unknown` where none has.
    fn from(v: &str) -> (r: Architecture)
        ensures
            r == architecture_named(v@),
    {
        if same_text(v, "amd64") || same_text(v, "x64") || same_text(v, "x86_64") {
            Architecture::Amd64
        } else if same_text(v, "arm") {
            Architecture::Arm
        } else if same_text(v, "aarch64") || same_text(v, "arm64") {
            Architecture::Arm64
        } else {
            Architecture::Unknown
        }
    }
}

impl vstd::std_specs::convert::FromSpecImpl<&str> for Architecture {
    open spec fn obeys_from_spec() -> bool {
        true
    }

    open spec fn from_spec(v: &str) -> Architecture {
        architecture_named(v@)
    }
}

} // verus!
