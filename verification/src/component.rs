//! The closed enumeration of installable components and its two fixed
//! mapping tables.
//!
//! Components cross the boundary in two forms: toward the managed runtime as
//! the name of a static constant on the managed component class, and from the
//! managed runtime as a wire integer (the constant's ordinal).  Both tables
//! are total: a native variant the managed side does not know is rendered as
//! the designated `unknown` constant, and an unrecognized wire integer maps to
//! [`Component::Unknown`] rather than failing.

use vstd::prelude::*;

verus! {

/// A named installable part of an editor installation.
///
/// The enumeration is closed; [`Component::Unknown`] is the designated
/// forward-compatibility fallback for values the mapping tables do not cover.
#[derive(Clone, Copy, PartialEq, Eq, Structural, Debug)]
pub enum Component {
    Android,
    Ios,
    TvOs,
    WebGl,
    Linux,
    Windows,
    WindowsMono,
    Editor,
    Mono,
    VisualStudio,
    MonoDevelop,
    StandardAssets,
    Documentation,
    VisualStudioProfessionalUnityWorkload,
    VisualStudioEnterpriseUnityWorkload,
    ExampleProject,
    Example,
    AndroidSdkNdkTools,
    AndroidSdkPlatforms,
    AndroidSdkPlatformTools,
    AndroidSdkBuildTools,
    AndroidNdk,
    AndroidOpenJdk,
    AppleTV,
    LinuxMono,
    Mac,
    MacIL2CPP,
    MacMono,
    Metro,
    UwpIL2CPP,
    UwpNet,
    UniversalWindowsPlatform,
    Samsungtv,
    SamsungTV,
    Tizen,
    Vuforia,
    VuforiaAR,
    WindowsIL2CCP,
    Facebook,
    FacebookGames,
    FacebookGameRoom,
    Lumin,
    LinuxIL2CPP,
    LinuxServer,
    MacServer,
    WindowsServer,
    Unknown,
}

/// The managed constant name each native variant marshals to.
pub open spec fn spec_constant_name(c: Component) -> Seq<char> {
    match c {
        Component::Android => "android"@,
        Component::Ios => "ios"@,
        Component::TvOs => "tvOs"@,
        Component::WebGl => "webGl"@,
        Component::Linux => "linux"@,
        Component::Windows => "windows"@,
        Component::WindowsMono => "windowsMono"@,
        Component::Editor => "editor"@,
        Component::Mono => "mono"@,
        Component::VisualStudio => "visualStudio"@,
        Component::MonoDevelop => "monoDevelop"@,
        Component::StandardAssets => "standardAssets"@,
        Component::Documentation => "documentation"@,
        Component::VisualStudioProfessionalUnityWorkload => "visualStudioProfessionalUnityWorkload"@,
        Component::VisualStudioEnterpriseUnityWorkload => "visualStudioProfessionalUnityWorkload"@,
        Component::ExampleProject => "exampleProject"@,
        Component::Example => "exampleProject"@,
        Component::AndroidSdkNdkTools => "androidSdkNdkTools"@,
        Component::AndroidSdkPlatforms => "androidSdkPlatforms"@,
        Component::AndroidSdkPlatformTools => "androidSdkPlatformTools"@,
        Component::AndroidSdkBuildTools => "androidSdkBuildTools"@,
        Component::AndroidNdk => "androidNdk"@,
        Component::AndroidOpenJdk => "androidOpenJdk"@,
        Component::AppleTV => "appleTV"@,
        Component::LinuxMono => "linuxMono"@,
        Component::Mac => "mac"@,
        Component::MacIL2CPP => "macIL2CPP"@,
        Component::MacMono => "macMono"@,
        Component::Metro => "metro"@,
        Component::UwpIL2CPP => "uwpIL2CPP"@,
        Component::UwpNet => "uwpNet"@,
        Component::UniversalWindowsPlatform => "universalWindowsPlatform"@,
        Component::Samsungtv => "samsungtv"@,
        Component::SamsungTV => "samsungTV"@,
        Component::Tizen => "tizen"@,
        Component::Vuforia => "vuforia"@,
        Component::VuforiaAR => "vuforiaAR"@,
        Component::WindowsIL2CCP => "windowsIL2CCP"@,
        Component::Facebook => "facebook"@,
        Component::FacebookGames => "facebookGames"@,
        Component::FacebookGameRoom => "facebookGameRoom"@,
        Component::Lumin => "lumin"@,
        Component::LinuxIL2CPP => "unknown"@,
        Component::LinuxServer => "unknown"@,
        Component::MacServer => "unknown"@,
        Component::WindowsServer => "unknown"@,
        Component::Unknown => "unknown"@,
    }
}

/// Native component to managed constant name: the name of the static field
/// the marshaller reads on the managed component class.  Total: variants the
/// managed side does not expose yield the `unknown` constant.
pub fn constant_name(c: Component) -> (r: &'static str)
    ensures
        r@ == spec_constant_name(c),
{
    match c {
        Component::Android => "android",
        Component::Ios => "ios",
        Component::TvOs => "tvOs",
        Component::WebGl => "webGl",
        Component::Linux => "linux",
        Component::Windows => "windows",
        Component::WindowsMono => "windowsMono",
        Component::Editor => "editor",
        Component::Mono => "mono",
        Component::VisualStudio => "visualStudio",
        Component::MonoDevelop => "monoDevelop",
        Component::StandardAssets => "standardAssets",
        Component::Documentation => "documentation",
        Component::VisualStudioProfessionalUnityWorkload => "visualStudioProfessionalUnityWorkload",
        Component::VisualStudioEnterpriseUnityWorkload => "visualStudioProfessionalUnityWorkload",
        Component::ExampleProject => "exampleProject",
        Component::Example => "exampleProject",
        Component::AndroidSdkNdkTools => "androidSdkNdkTools",
        Component::AndroidSdkPlatforms => "androidSdkPlatforms",
        Component::AndroidSdkPlatformTools => "androidSdkPlatformTools",
        Component::AndroidSdkBuildTools => "androidSdkBuildTools",
        Component::AndroidNdk => "androidNdk",
        Component::AndroidOpenJdk => "androidOpenJdk",
        Component::AppleTV => "appleTV",
        Component::LinuxMono => "linuxMono",
        Component::Mac => "mac",
        Component::MacIL2CPP => "macIL2CPP",
        Component::MacMono => "macMono",
        Component::Metro => "metro",
        Component::UwpIL2CPP => "uwpIL2CPP",
        Component::UwpNet => "uwpNet",
        Component::UniversalWindowsPlatform => "universalWindowsPlatform",
        Component::Samsungtv => "samsungtv",
        Component::SamsungTV => "samsungTV",
        Component::Tizen => "tizen",
        Component::Vuforia => "vuforia",
        Component::VuforiaAR => "vuforiaAR",
        Component::WindowsIL2CCP => "windowsIL2CCP",
        Component::Facebook => "facebook",
        Component::FacebookGames => "facebookGames",
        Component::FacebookGameRoom => "facebookGameRoom",
        Component::Lumin => "lumin",
        Component::LinuxIL2CPP => "unknown",
        Component::LinuxServer => "unknown",
        Component::MacServer => "unknown",
        Component::WindowsServer => "unknown",
        Component::Unknown => "unknown",
    }
}

/// The fixed wire-integer to variant table for component values passed as
/// integers from the managed side.
pub open spec fn spec_component_of_wire(v: int) -> Component {
    if v == 0 {
        Component::Android
    } else if v == 1 {
        Component::Ios
    } else if v == 3 {
        Component::WebGl
    } else if v == 4 {
        Component::Linux
    } else if v == 5 {
        Component::Windows
    } else if v == 6 {
        Component::WindowsMono
    } else if v == 7 {
        Component::Editor
    } else if v == 8 {
        Component::Mono
    } else if v == 9 {
        Component::VisualStudio
    } else if v == 10 {
        Component::MonoDevelop
    } else if v == 11 {
        Component::StandardAssets
    } else if v == 12 {
        Component::Documentation
    } else if v == 13 {
        Component::VisualStudioEnterpriseUnityWorkload
    } else if v == 14 {
        Component::VisualStudioEnterpriseUnityWorkload
    } else if v == 15 {
        Component::ExampleProject
    } else if v == 16 {
        Component::Example
    } else if v == 17 {
        Component::AndroidSdkNdkTools
    } else if v == 18 {
        Component::AndroidSdkPlatforms
    } else if v == 19 {
        Component::AndroidSdkPlatformTools
    } else if v == 20 {
        Component::AndroidSdkBuildTools
    } else if v == 21 {
        Component::AndroidNdk
    } else if v == 22 {
        Component::AndroidOpenJdk
    } else if v == 23 {
        Component::AppleTV
    } else if v == 24 {
        Component::LinuxMono
    } else if v == 25 {
        Component::Mac
    } else if v == 26 {
        Component::MacIL2CPP
    } else if v == 27 {
        Component::MacMono
    } else if v == 28 {
        Component::Metro
    } else if v == 29 {
        Component::UwpIL2CPP
    } else if v == 30 {
        Component::UwpNet
    } else if v == 31 {
        Component::UniversalWindowsPlatform
    } else if v == 32 {
        Component::Samsungtv
    } else if v == 33 {
        Component::SamsungTV
    } else if v == 34 {
        Component::Tizen
    } else if v == 35 {
        Component::Vuforia
    } else if v == 36 {
        Component::VuforiaAR
    } else if v == 37 {
        Component::WindowsIL2CCP
    } else if v == 38 {
        Component::Facebook
    } else if v == 39 {
        Component::FacebookGames
    } else if v == 40 {
        Component::FacebookGameRoom
    } else if v == 41 {
        Component::Lumin
    } else if v == 42 {
        Component::LinuxIL2CPP
    } else if v == 43 {
        Component::LinuxServer
    } else if v == 44 {
        Component::MacServer
    } else if v == 45 {
        Component::WindowsServer
    } else {
        Component::Unknown
    }
}

/// Managed wire integer to native variant.  Total: any integer the table does
/// not list (including negative ones) yields [`Component::Unknown`] rather
/// than a failure.
pub fn component_from_wire(v: i32) -> (c: Component)
    ensures
        c == spec_component_of_wire(v as int),
{
    match v {
        0 => Component::Android,
        1 => Component::Ios,
        3 => Component::WebGl,
        4 => Component::Linux,
        5 => Component::Windows,
        6 => Component::WindowsMono,
        7 => Component::Editor,
        8 => Component::Mono,
        9 => Component::VisualStudio,
        10 => Component::MonoDevelop,
        11 => Component::StandardAssets,
        12 => Component::Documentation,
        13 => Component::VisualStudioEnterpriseUnityWorkload,
        14 => Component::VisualStudioEnterpriseUnityWorkload,
        15 => Component::ExampleProject,
        16 => Component::Example,
        17 => Component::AndroidSdkNdkTools,
        18 => Component::AndroidSdkPlatforms,
        19 => Component::AndroidSdkPlatformTools,
        20 => Component::AndroidSdkBuildTools,
        21 => Component::AndroidNdk,
        22 => Component::AndroidOpenJdk,
        23 => Component::AppleTV,
        24 => Component::LinuxMono,
        25 => Component::Mac,
        26 => Component::MacIL2CPP,
        27 => Component::MacMono,
        28 => Component::Metro,
        29 => Component::UwpIL2CPP,
        30 => Component::UwpNet,
        31 => Component::UniversalWindowsPlatform,
        32 => Component::Samsungtv,
        33 => Component::SamsungTV,
        34 => Component::Tizen,
        35 => Component::Vuforia,
        36 => Component::VuforiaAR,
        37 => Component::WindowsIL2CCP,
        38 => Component::Facebook,
        39 => Component::FacebookGames,
        40 => Component::FacebookGameRoom,
        41 => Component::Lumin,
        42 => Component::LinuxIL2CPP,
        43 => Component::LinuxServer,
        44 => Component::MacServer,
        45 => Component::WindowsServer,
        _ => Component::Unknown,
    }
}

/// Totality of the component mapping tables: every native variant has a
/// defined, nonempty managed constant name, and every wire integer outside
/// the table (the listed range, from which one value is absent) maps to the
/// `Unknown` fallback rather than failing.
pub proof fn lemma_component_mapping_total()
    ensures
        forall|c: Component| (#[trigger] spec_constant_name(c)).len() > 0,
        forall|v: int| v < 0 || v > 45 || v == 2 ==> #[trigger] spec_component_of_wire(v)
            == Component::Unknown,
{
    reveal_strlit("android");
    reveal_strlit("ios");
    reveal_strlit("tvOs");
    reveal_strlit("webGl");
    reveal_strlit("linux");
    reveal_strlit("windows");
    reveal_strlit("windowsMono");
    reveal_strlit("editor");
    reveal_strlit("mono");
    reveal_strlit("visualStudio");
    reveal_strlit("monoDevelop");
    reveal_strlit("standardAssets");
    reveal_strlit("documentation");
    reveal_strlit("visualStudioProfessionalUnityWorkload");
    reveal_strlit("exampleProject");
    reveal_strlit("androidSdkNdkTools");
    reveal_strlit("androidSdkPlatforms");
    reveal_strlit("androidSdkPlatformTools");
    reveal_strlit("androidSdkBuildTools");
    reveal_strlit("androidNdk");
    reveal_strlit("androidOpenJdk");
    reveal_strlit("appleTV");
    reveal_strlit("linuxMono");
    reveal_strlit("mac");
    reveal_strlit("macIL2CPP");
    reveal_strlit("macMono");
    reveal_strlit("metro");
    reveal_strlit("uwpIL2CPP");
    reveal_strlit("uwpNet");
    reveal_strlit("universalWindowsPlatform");
    reveal_strlit("samsungtv");
    reveal_strlit("samsungTV");
    reveal_strlit("tizen");
    reveal_strlit("vuforia");
    reveal_strlit("vuforiaAR");
    reveal_strlit("windowsIL2CCP");
    reveal_strlit("facebook");
    reveal_strlit("facebookGames");
    reveal_strlit("facebookGameRoom");
    reveal_strlit("lumin");
    reveal_strlit("unknown");
}

} // verus!
