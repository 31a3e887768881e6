//! What to do once the installed and the latest version are known:
//! whether to update, and which package of the vendor's to fetch.

use vstd::prelude::*;
use vstd::string::StringExecFns;
use crate::codec::{version_string_to_number, is_version_string, version_code_of, VersionCode};
use crate::error::Error;
use crate::probe::ProbeResult;
use crate::system::{SystemInfo, SystemInfoView};
use crate::text::chars_of;

verus! {

/// Whether a newer driver is to be fetched.
#[derive(Debug, Clone, Copy, PartialEq, Eq, Structural)]
pub enum Decision {
    /// The installed driver is the latest, or newer.
    AlreadyOnLatest,
    /// No driver is installed, or an older one than the latest.
    UpdateAvailable,
}

/// The decision for what the probe found and the code of the latest
/// version: there is nothing to do exactly where a driver is installed
/// whose code is at least the latest.
pub open spec fn decision_for(installed: ProbeResult, latest: int) -> Decision {
    match installed {
        ProbeResult::Found(code) => if code >= latest {
            Decision::AlreadyOnLatest
        } else {
            Decision::UpdateAvailable
        },
        ProbeResult::NotFound => Decision::UpdateAvailable,
    }
}

/// Decides whether to update, from what the probe found and the code of
/// the latest version.
pub fn decide(installed: ProbeResult, latest: VersionCode) -> (decision: Decision)
    ensures
        decision == decision_for(installed, latest as int),
{
    match installed {
        ProbeResult::Found(code) => if code >= latest {
            Decision::AlreadyOnLatest
        } else {
            Decision::UpdateAvailable
        },
        ProbeResult::NotFound => Decision::UpdateAvailable,
    }
}

/// Decides whether to update, from what the probe found and the latest
/// version as the vendor's page gives it. The probe's code is taken as
/// it is; the page's text is decoded, and where it is no version string
/// the answer is `MalformedVersion`.
pub fn decide_from_page(installed: ProbeResult, latest_version: &str) -> (r: Result<
    Decision,
    Error,
>)
    ensures
        is_version_string(latest_version@) ==> r == Ok::<Decision, Error>(
            decision_for(installed, version_code_of(latest_version@)),
        ),
        !is_version_string(latest_version@) ==> r == Err::<Decision, Error>(
            Error::MalformedVersion,
        ),
{
    match version_string_to_number(latest_version) {
        Ok(latest) => Ok(decide(installed, latest)),
        Err(e) => Err(e),
    }
}

/// `text` without its dots.
pub open spec fn without_dots(text: Seq<char>) -> Seq<char>
    decreases text.len(),
{
    if text.len() == 0 {
        text
    } else if text.last() == '.' {
        without_dots(text.drop_last())
    } else {
        without_dots(text.drop_last()).push(text.last())
    }
}

/// The name of the vendor's package of `version` for the platform `info`:
/// `JLink_`, the family, the version without its dot, the architecture,
/// and the package type as the extension.
pub open spec fn package_file_name_text(info: SystemInfoView, version: Seq<char>) -> Seq<char> {
    "JLink_"@ + info.os_family.name_text() + "_"@ + without_dots(version) + "_"@
        + info.architecture + "."@ + info.package_type
}

/// The name of the vendor's package of `version` for the platform `info`,
/// where `version` is the version as the vendor's page gives it, such as
/// `V7.94a`.
pub fn package_file_name(info: &SystemInfo, version: &str) -> (name: String)
    ensures
        name@ == package_file_name_text(info@, version@),
{
    let mut name = "JLink_".to_owned();
    name.append(info.os_family().name());
    name.append("_");
    let ghost head = name@;
    let chars = chars_of(version);
    let mut i: usize = 0;
    assert(chars@.take(0) =~= Seq::<char>::empty());
    while i < chars.len()
        invariant
            i <= chars.len(),
            name@ == head + without_dots(chars@.take(i as int)),
        decreases chars.len() - i,
    {
        proof {
            assert(chars@.take(i + 1).drop_last() =~= chars@.take(i as int));
        }
        if chars[i] != '.' {
            name.push(chars[i]);
        }
        i += 1;
    }
    assert(chars@.take(chars.len() as int) =~= chars@);
    name.append("_");
    name.append(info.architecture());
    name.append(".");
    name.append(info.package_type());
    name
}

/// The address of the vendor's page that lists the versions, and below
/// which the packages are.
pub fn downloads_page() -> (url: &'static str)
    ensures
        url@ == "https://www.segger.com/downloads/jlink/"@,
{
    "https://www.segger.com/downloads/jlink/"
}

/// The address of the package with the given file name.
pub fn package_url(file_name: &str) -> (url: String)
    ensures
        url@ == "https://www.segger.com/downloads/jlink/"@ + file_name@,
{
    let mut url = downloads_page().to_owned();
    url.append(file_name);
    url
}

/// The number of bytes to show as fetched after `chunk` more bytes have
/// come in: never more than the size that the server announced.
pub fn progress_after(fetched: u64, chunk: usize, total: u64) -> (shown: u64)
    ensures
        shown == if fetched + chunk <= total {
            fetched + chunk
        } else {
            total as int
        },
{
    let chunk = chunk as u64;
    if fetched <= total && chunk <= total - fetched {
        fetched + chunk
    } else {
        total
    }
}

} // verus!
