//! What holds of every platform that `get_system_info` works out.

use vstd::prelude::*;
use crate::system::{
    is_auto, named_os_family, normalized_architecture, resolved, HostFactsView, OsFamily,
    OverridesView,
};

verus! {

/// The operating system that counts: the user's, or the host's where the
/// user leaves it to detection.
pub open spec fn system_in_effect(overrides: OverridesView, host: HostFactsView) -> Seq<char> {
    if is_auto(overrides.system) {
        host.os
    } else {
        overrides.system
    }
}

/// A platform is worked out exactly where the operating system in
/// effect is one of the table, and it is of that system's family.
pub proof fn lemma_supported_systems(overrides: OverridesView, host: HostFactsView)
    ensures
        resolved(overrides, host) is None <==> named_os_family(system_in_effect(overrides, host))
            is None,
        resolved(overrides, host) matches Some(info) ==> Some(info.os_family) == named_os_family(
            system_in_effect(overrides, host),
        ),
{
}

/// What the user gives stands, on every operating system: the package
/// type and the install command as they are, the architecture with its
/// synonyms replaced.
pub proof fn lemma_given_settings_stand(overrides: OverridesView, host: HostFactsView)
    requires
        resolved(overrides, host) is Some,
    ensures
        !is_auto(overrides.package_install_cmd) ==> resolved(
            overrides,
            host,
        )->0.package_install_command == overrides.package_install_cmd,
        !is_auto(overrides.package_type) ==> resolved(overrides, host)->0.package_type
            == overrides.package_type,
        !is_auto(overrides.arch) ==> resolved(overrides, host)->0.architecture
            == normalized_architecture(overrides.arch),
{
}

/// The family alone decides what is assumed for the package type and the
/// install command: two platforms of one family, both worked out with
/// these settings left to detection, agree on them.
pub proof fn lemma_family_decides_defaults(
    first: OverridesView,
    first_host: HostFactsView,
    second: OverridesView,
    second_host: HostFactsView,
)
    requires
        resolved(first, first_host) is Some,
        resolved(second, second_host) is Some,
        resolved(first, first_host)->0.os_family == resolved(second, second_host)->0.os_family,
        is_auto(first.package_type) && is_auto(second.package_type),
        is_auto(first.package_install_cmd) && is_auto(second.package_install_cmd),
    ensures
        resolved(first, first_host)->0.package_type == resolved(
            second,
            second_host,
        )->0.package_type,
        resolved(first, first_host)->0.package_install_command == resolved(
            second,
            second_host,
        )->0.package_install_command,
{
}

/// An architecture that the user gives, and that is neither of the two
/// synonyms as they are written, stands as it is on every operating
/// system.
pub proof fn lemma_other_architectures_stand(overrides: OverridesView, host: HostFactsView)
    requires
        resolved(overrides, host) is Some,
        !is_auto(overrides.arch),
        overrides.arch != "aarch64"@,
        overrides.arch != "amd64"@,
    ensures
        resolved(overrides, host)->0.architecture == overrides.arch,
{
}

/// No synonym is left in an architecture once its synonyms are replaced:
/// the vendor's names are none themselves, so that replacing a second
/// time changes nothing.
pub proof fn lemma_normalized_architecture_is_normal(arch: Seq<char>)
    ensures
        normalized_architecture(arch) != "aarch64"@,
        normalized_architecture(arch) != "amd64"@,
        normalized_architecture(normalized_architecture(arch)) == normalized_architecture(arch),
{
    reveal_strlit("aarch64");
    reveal_strlit("amd64");
    reveal_strlit("arm64");
    reveal_strlit("x86_64");
    assert("arm64"@.len() != "aarch64"@.len());
    assert("x86_64"@.len() != "aarch64"@.len());
    assert("x86_64"@.len() != "amd64"@.len());
    assert("arm64"@[1] != "amd64"@[1]);
}

/// Every family is found again under its own name.
pub proof fn lemma_family_goes_by_its_name(os: OsFamily)
    ensures
        named_os_family(os.name_text()) == Some(os),
{
    reveal_strlit("Linux");
    reveal_strlit("MacOSX");
    reveal_strlit("Windows");
    reveal_strlit("linux");
    reveal_strlit("windows");
    assert("MacOSX"@.len() != "linux"@.len() && "MacOSX"@.len() != "Linux"@.len());
    assert("Windows"@.len() != "linux"@.len() && "Windows"@.len() != "Linux"@.len());
    reveal_strlit("macos");
    reveal_strlit("macOS");
    assert("Windows"@.len() != "macos"@.len() && "Windows"@.len() != "macOS"@.len());
    assert("Windows"@.len() != "MacOSX"@.len());
}

} // verus!
