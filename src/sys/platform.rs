use vstd::prelude::*;

use crate::sys::same_text;

verus! {

/// Operating system families.
#[derive(Clone, Copy, Debug, PartialEq, Eq, Structural)]
pub enum Platform {
    Windows,
    Darwin,
    Linux,
    Unknown,
}

/// The names of a platform, the canonical one first.
pub open spec fn platform_names(p: Platform) -> Seq<Seq<char>> {
    match p {
        Platform::Windows => seq!["windows"@],
        Platform::Darwin => seq!["darwin"@, "macos"@],
        Platform::Linux => seq!["linux"@],
        Platform::Unknown => seq!["unknown"@],
    }
}

/// The platform that has `s` among its names; `Unknown` where none has.
pub open spec fn platform_named(s: Seq<char>) -> Platform {
    if s == "windows"@ {
        Platform::Windows
    } else if s == "darwin"@ || s == "macos"@ {
        Platform::Darwin
    } else if s == "linux"@ {
        Platform::Linux
    } else {
        Platform::Unknown
    }
}

/// The platform of a target operating system, named as Rust names it (`windows`, `linux`,
/// `macos`); `Unknown` for any other.
pub open spec fn platform_of_os(os: Seq<char>) -> Platform {
    if os == "windows"@ {
        Platform::Windows
    } else if os == "linux"@ {
        Platform::Linux
    } else if os == "macos"@ {
        Platform::Darwin
    } else {
        Platform::Unknown
    }
}

/// Each name of a platform is read back as that platform; in particular its canonical
/// name, which `to_string` gives, is.
pub proof fn lemma_platform_names_round_trip(p: Platform)
    ensures
        forall|i: int|
            0 <= i < platform_names(p).len() ==> platform_named(#[trigger] platform_names(p)[i])
                == p,
        platform_named(platform_names(p)[0]) == p,
{
    reveal_strlit("windows");
    reveal_strlit("darwin");
    reveal_strlit("macos");
    reveal_strlit("linux");
    reveal_strlit("unknown");
    assert("windows"@ =~= seq!['w', 'i', 'n', 'd', 'o', 'w', 's']);
    assert("darwin"@ =~= seq!['d', 'a', 'r', 'w', 'i', 'n']);
    assert("macos"@ =~= seq!['m', 'a', 'c', 'o', 's']);
    assert("linux"@ =~= seq!['l', 'i', 'n', 'u', 'x']);
    assert("unknown"@ =~= seq!['u', 'n', 'k', 'n', 'o', 'w', 'n']);
}

impl Platform {
    /// The platform of the target operating system `os`, named as Rust names it
    /// (`std::env::consts::OS`): `windows`, `linux` and `macos` are known, any other name
    /// gives `Unknown`.
    pub fn detect(os: &str) -> (r: Platform)
        ensures
            r == platform_of_os(os@),
    {
        if same_text(os, "windows") {
            Platform::Windows
        } else if same_text(os, "linux") {
            Platform::Linux
        } else if same_text(os, "macos") {
            Platform::Darwin
        } else {
            Platform::Unknown
        }
    }

    /// The names of the platform, the canonical one first.
    pub fn value(&self) -> (r: Vec<String>)
        ensures
            r@.len() == platform_names(*self).len(),
            forall|i: int| 0 <= i < r@.len() ==> #[trigger] r@[i]@ == platform_names(*self)[i],
    {
        match self {
            Platform::Windows => vec![String::from_str("windows")],
            Platform::Darwin => vec![String::from_str("darwin"), String::from_str("macos")],
            Platform::Linux => vec![String::from_str("linux")],
            Platform::Unknown => vec![String::from_str("unknown")],
        }
    }

    /// The canonical name of the platform.
    pub fn to_string(&self) -> (r: String)
        ensures
            r@ == platform_names(*self)[0],
    {
        let names = self.value();
        names[0].clone()
    }
}

impl From<&str> for Platform {
    /// The platform that has `v` among its names; `Unknown` where none has.
    fn from(v: &str) -> (r: Platform)
        ensures
            r == platform_named(v@),
    {
        if same_text(v, "windows") {
            Platform::Windows
        } else if same_text(v, "darwin") || same_text(v, "macos") {
            Platform::Darwin
        } else if same_text(v, "linux") {
            Platform::Linux
        } else {
            Platform::Unknown
        }
    }
}

impl vstd::std_specs::convert::FromSpecImpl<&str> for Platform {
    open spec fn obeys_from_spec() -> bool {
        true
    }

    open spec fn from_spec(v: &str) -> Platform {
        platform_named(v@)
    }
}

} // verus!
