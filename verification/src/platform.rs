//! The label under which the shell reports the platform it runs on.

use vstd::prelude::*;

verus! {

/// The name of an operating system and of a processor architecture, joined by
/// a hyphen.
pub open spec fn platform_label_text(os: Seq<char>, arch: Seq<char>) -> Seq<char> {
    os + seq!['-'] + arch
}

/// Builds the platform label from the names of the operating system and of
/// the processor architecture, as in `linux-x86_64`.
pub fn platform_label(os: &str, arch: &str) -> (label: String)
    ensures
        label@ == platform_label_text(os@, arch@),
{
    let mut label = os.to_owned();
    label.append("-");
    label.append(arch);
    proof {
        reveal_strlit("-");
        assert("-"@ =~= seq!['-']);
    }
    label
}

} // verus!
