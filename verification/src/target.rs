//! The fixed enumeration of supported OS/architecture pairs and the
//! stable string fragment each one contributes to release URLs and
//! file names.

use vstd::prelude::*;

verus! {

use crate::text::str_eq;

/// Tor build targets available upstream: the ten OS/architecture pairs
/// for which release archives are published.
#[derive(Clone, Copy, PartialEq, Eq, Structural, Debug)]
pub enum Target {
    AndroidAarch64,
    AndroidArmv7,
    AndroidX86,
    AndroidX8664,
    GnuLinuxI686,
    GnuLinuxX8664,
    MacOSAarch64,
    MacOSX8664,
    WindowsI686,
    WindowsX8664,
}

/// The string fragment a target renders to, as used verbatim in release
/// file names and URLs.
pub open spec fn spec_render(t: Target) -> Seq<char> {
    match t {
        Target::AndroidAarch64 => "android-aarch64"@,
        Target::AndroidArmv7 => "android-armv7"@,
        Target::AndroidX86 => "android-x86"@,
        Target::AndroidX8664 => "android-x86_64"@,
        Target::GnuLinuxI686 => "linux-i686"@,
        Target::GnuLinuxX8664 => "linux-x86_64"@,
        Target::MacOSAarch64 => "macos-aarch64"@,
        Target::MacOSX8664 => "macos-x86_64"@,
        Target::WindowsI686 => "windows-i686"@,
        Target::WindowsX8664 => "windows-x86_64"@,
    }
}

impl Target {
    /// Renders the target as its stable lowercase hyphenated fragment.
    pub fn render(&self) -> (r: &'static str)
        ensures
            r@ == spec_render(*self),
    {
        match self {
            Target::AndroidAarch64 => "android-aarch64",
            Target::AndroidArmv7 => "android-armv7",
            Target::AndroidX86 => "android-x86",
            Target::AndroidX8664 => "android-x86_64",
            Target::GnuLinuxI686 => "linux-i686",
            Target::GnuLinuxX8664 => "linux-x86_64",
            Target::MacOSAarch64 => "macos-aarch64",
            Target::MacOSX8664 => "macos-x86_64",
            Target::WindowsI686 => "windows-i686",
            Target::WindowsX8664 => "windows-x86_64",
        }
    }

    /// The capability table from host identification to a supported
    /// target, so that no platform branching is compiled into the core:
    /// the embedding program queries the host once and passes the two
    /// labels (as `std::env::consts::OS` and `ARCH` spell them) here.
    pub fn from_host(os: &str, arch: &str) -> (r: Option<Target>)
        ensures
            r == spec_from_host(os@, arch@),
    {
        if str_eq(os, "android") {
            if str_eq(arch, "aarch64") {
                Some(Target::AndroidAarch64)
            } else if str_eq(arch, "arm") {
                Some(Target::AndroidArmv7)
            } else if str_eq(arch, "x86") {
                Some(Target::AndroidX86)
            } else if str_eq(arch, "x86_64") {
                Some(Target::AndroidX8664)
            } else {
                None
            }
        } else if str_eq(os, "linux") {
            if str_eq(arch, "x86") {
                Some(Target::GnuLinuxI686)
            } else if str_eq(arch, "x86_64") {
                Some(Target::GnuLinuxX8664)
            } else {
                None
            }
        } else if str_eq(os, "macos") {
            if str_eq(arch, "aarch64") {
                Some(Target::MacOSAarch64)
            } else if str_eq(arch, "x86_64") {
                Some(Target::MacOSX8664)
            } else {
                None
            }
        } else if str_eq(os, "windows") {
            if str_eq(arch, "x86") {
                Some(Target::WindowsI686)
            } else if str_eq(arch, "x86_64") {
                Some(Target::WindowsX8664)
            } else {
                None
            }
        } else {
            None
        }
    }

    /// Whether the platform supports delivering a forceful termination
    /// signal to a process; on Windows this is a documented no-op.
    pub fn supports_forceful_kill(&self) -> (r: bool)
        ensures
            r == !(*self == Target::WindowsI686 || *self == Target::WindowsX8664),
    {
        match self {
            Target::WindowsI686 => false,
            Target::WindowsX8664 => false,
            _ => true,
        }
    }
}

/// Spec-level capability table mirrored by `Target::from_host`.
pub open spec fn spec_from_host(os: Seq<char>, arch: Seq<char>) -> Option<Target> {
    if os == "android"@ {
        if arch == "aarch64"@ {
            Some(Target::AndroidAarch64)
        } else if arch == "arm"@ {
            Some(Target::AndroidArmv7)
        } else if arch == "x86"@ {
            Some(Target::AndroidX86)
        } else if arch == "x86_64"@ {
            Some(Target::AndroidX8664)
        } else {
            None
        }
    } else if os == "linux"@ {
        if arch == "x86"@ {
            Some(Target::GnuLinuxI686)
        } else if arch == "x86_64"@ {
            Some(Target::GnuLinuxX8664)
        } else {
            None
        }
    } else if os == "macos"@ {
        if arch == "aarch64"@ {
            Some(Target::MacOSAarch64)
        } else if arch == "x86_64"@ {
            Some(Target::MacOSX8664)
        } else {
            None
        }
    } else if os == "windows"@ {
        if arch == "x86"@ {
            Some(Target::WindowsI686)
        } else if arch == "x86_64"@ {
            Some(Target::WindowsX8664)
        } else {
            None
        }
    } else {
        None
    }
}

impl Default for Target {
    /// The fixed fallback target. Host-specific selection is made by the
    /// embedding program through `Target::from_host`.
    fn default() -> (r: Target)
        ensures
            r == Target::GnuLinuxX8664,
    {
        Target::GnuLinuxX8664
    }
}

/// A character admissible in a rendered target fragment: lowercase
/// ASCII, a digit, a hyphen, or an underscore.
pub open spec fn spec_fragment_char(c: char) -> bool {
    ('a' <= c && c <= 'z') || ('0' <= c && c <= '9') || c == '-' || c == '_'
}

/// Every rendered target fragment is non-empty, hyphenated, and made
/// only of lowercase letters, digits, hyphens and underscores.
pub proof fn lemma_render_wellformed(t: Target)
    ensures
        spec_render(t).len() > 0,
        exists|i: int| 0 <= i < spec_render(t).len() && spec_render(t)[i] == '-',
        forall|i: int| 0 <= i < spec_render(t).len() ==> spec_fragment_char(#[trigger] spec_render(t)[i]),
{
    reveal_strlit("android-aarch64");
    reveal_strlit("android-armv7");
    reveal_strlit("android-x86");
    reveal_strlit("android-x86_64");
    reveal_strlit("linux-i686");
    reveal_strlit("linux-x86_64");
    reveal_strlit("macos-aarch64");
    reveal_strlit("macos-x86_64");
    reveal_strlit("windows-i686");
    reveal_strlit("windows-x86_64");
    match t {
        Target::AndroidAarch64 => {
            assert(spec_render(t)[7] == '-');
        },
        Target::AndroidArmv7 => {
            assert(spec_render(t)[7] == '-');
        },
        Target::AndroidX86 => {
            assert(spec_render(t)[7] == '-');
        },
        Target::AndroidX8664 => {
            assert(spec_render(t)[7] == '-');
        },
        Target::GnuLinuxI686 => {
            assert(spec_render(t)[5] == '-');
        },
        Target::GnuLinuxX8664 => {
            assert(spec_render(t)[5] == '-');
        },
        Target::MacOSAarch64 => {
            assert(spec_render(t)[5] == '-');
        },
        Target::MacOSX8664 => {
            assert(spec_render(t)[5] == '-');
        },
        Target::WindowsI686 => {
            assert(spec_render(t)[7] == '-');
        },
        Target::WindowsX8664 => {
            assert(spec_render(t)[7] == '-');
        },
    }
}

/// No two distinct targets render to the same fragment: the rendered
/// string uniquely identifies the variant.
pub proof fn lemma_render_injective(a: Target, b: Target)
    ensures
        spec_render(a) == spec_render(b) ==> a == b,
{
    reveal_strlit("android-aarch64");
    reveal_strlit("android-armv7");
    reveal_strlit("android-x86");
    reveal_strlit("android-x86_64");
    reveal_strlit("linux-i686");
    reveal_strlit("linux-x86_64");
    reveal_strlit("macos-aarch64");
    reveal_strlit("macos-x86_64");
    reveal_strlit("windows-i686");
    reveal_strlit("windows-x86_64");
    if spec_render(a) == spec_render(b) {
        assert(spec_render(a).len() == spec_render(b).len());
        assert(spec_render(a)[0] == spec_render(b)[0]);
        assert(spec_render(a)[6] == spec_render(b)[6]);
        assert(spec_render(a)[spec_render(a).len() - 1] == spec_render(b)[spec_render(b).len() - 1]);
    }
}

} // verus!
