//! The proxy variants, the identity of the one that is implemented, and the
//! commands that manage its processes.

use vstd::prelude::*;
use vstd::string::StringExecFns;

verus! {

/// The proxy variants that can be selected.
#[derive(Clone, Copy, Debug, PartialEq, Eq, Structural)]
pub enum ProxyType {
    Xray,
    V2ray,
}

/// The kind of host that the daemon runs on, as far as process management
/// differs.
#[derive(Clone, Copy, Debug, PartialEq, Eq, Structural)]
pub enum Platform {
    Windows,
    Unix,
}

/// A proxy variant was selected that is not implemented.
#[derive(Clone, Copy, Debug, PartialEq, Eq, Structural)]
pub struct UnsupportedProxy {
    pub requested: ProxyType,
}

/// A process to run: the program, its arguments, and the directory to run it
/// in, if that matters.
#[derive(Clone, Debug, PartialEq, Eq)]
pub struct CommandSpec {
    pub program: String,
    pub args: Vec<String>,
    pub dir: Option<String>,
}

pub struct CommandView {
    pub program: Seq<char>,
    pub args: Seq<Seq<char>>,
    pub dir: Option<Seq<char>>,
}

impl View for CommandSpec {
    type V = CommandView;

    open spec fn view(&self) -> CommandView {
        CommandView {
            program: self.program@,
            args: self.args@.map_values(|a: String| a@),
            dir: match self.dir {
                Some(d) => Some(d@),
                None => None,
            },
        }
    }
}

/// The Xray proxy: the names of its executable and its daemon, where it is
/// installed, and where its releases are published.
#[derive(Clone, Debug, PartialEq, Eq)]
pub struct Xray {
    platform: Platform,
    name: String,
    daemon_name: String,
    dir: String,
    latest_url: String,
    asset_name: String,
}

pub struct XrayView {
    pub platform: Platform,
    pub name: Seq<char>,
    pub daemon_name: Seq<char>,
    pub dir: Seq<char>,
    pub latest_url: Seq<char>,
    pub asset_name: Seq<char>,
}

/// The suffix of executable files on a platform.
pub open spec fn exe_suffix(platform: Platform) -> Seq<char> {
    match platform {
        Platform::Windows => ".exe"@,
        Platform::Unix => Seq::empty(),
    }
}

/// The identity of an Xray installation in `dir` on `platform`.
pub open spec fn xray_identity(
    platform: Platform,
    dir: Seq<char>,
    url: Seq<char>,
    asset_name: Seq<char>,
) -> XrayView {
    XrayView {
        platform,
        name: "xray"@ + exe_suffix(platform),
        daemon_name: "wxray"@ + exe_suffix(platform),
        dir,
        latest_url: url,
        asset_name,
    }
}

/// The command that asks the executable for its version.
pub open spec fn version_command_of(x: XrayView) -> CommandView {
    CommandView { program: x.name, args: seq!["version"@], dir: Some(x.dir) }
}

/// The command that ends every running daemon process.
pub open spec fn kill_command_of(x: XrayView) -> CommandView {
    match x.platform {
        Platform::Windows => CommandView {
            program: "taskkill"@,
            args: seq!["/F"@, "/IM"@, x.daemon_name],
            dir: Some(x.dir),
        },
        Platform::Unix => CommandView {
            program: "pkill"@,
            args: seq![x.daemon_name],
            dir: Some(x.dir),
        },
    }
}

/// The command that starts the daemon.
pub open spec fn start_command_of(x: XrayView) -> CommandView {
    CommandView { program: x.daemon_name, args: Seq::empty(), dir: None }
}

impl View for Xray {
    type V = XrayView;

    closed spec fn view(&self) -> XrayView {
        XrayView {
            platform: self.platform,
            name: self.name@,
            daemon_name: self.daemon_name@,
            dir: self.dir@,
            latest_url: self.latest_url@,
            asset_name: self.asset_name@,
        }
    }
}

/// `name` with the suffix of executable files on `platform`.
fn executable(name: &str, platform: Platform) -> (s: String)
    ensures
        s@ == name@ + exe_suffix(platform),
{
    let mut s = String::from_str(name);
    match platform {
        Platform::Windows => {
            s.append(".exe");
        },
        Platform::Unix => {
            assert(s@ + Seq::<char>::empty() == s@);
        },
    }
    s
}

impl Xray {
    /// The Xray proxy installed in `dir` on `platform`, with its releases at
    /// `url` and the release asset `asset_name`.
    pub fn new(platform: Platform, dir: &str, url: &str, asset_name: &str) -> (x: Xray)
        ensures
            x@ == xray_identity(platform, dir@, url@, asset_name@),
    {
        Xray {
            platform,
            name: executable("xray", platform),
            daemon_name: executable("wxray", platform),
            dir: String::from_str(dir),
            latest_url: String::from_str(url),
            asset_name: String::from_str(asset_name),
        }
    }

    pub fn platform(&self) -> (p: Platform)
        ensures
            p == self@.platform,
    {
        self.platform
    }

    pub fn name(&self) -> (s: &str)
        ensures
            s@ == self@.name,
    {
        self.name.as_str()
    }

    pub fn daemon_name(&self) -> (s: &str)
        ensures
            s@ == self@.daemon_name,
    {
        self.daemon_name.as_str()
    }

    pub fn dir(&self) -> (s: &str)
        ensures
            s@ == self@.dir,
    {
        self.dir.as_str()
    }

    pub fn latest_url(&self) -> (s: &str)
        ensures
            s@ == self@.latest_url,
    {
        self.latest_url.as_str()
    }

    pub fn asset_name(&self) -> (s: &str)
        ensures
            s@ == self@.asset_name,
    {
        self.asset_name.as_str()
    }

    /// The command that asks the executable for its version: the executable
    /// with the argument `version`, run in the install directory.
    pub fn version_command(&self) -> (c: CommandSpec)
        ensures
            c@ == version_command_of(self@),
    {
        let mut args: Vec<String> = Vec::new();
        args.push(String::from_str("version"));
        let c = CommandSpec {
            program: self.name.clone(),
            args,
            dir: Some(self.dir.clone()),
        };
        assert(c@.args == seq!["version"@]);
        c
    }

    /// The command that ends every running daemon process, by name: a forced
    /// `taskkill` on Windows, `pkill` elsewhere, run in the install
    /// directory.
    pub fn kill_command(&self) -> (c: CommandSpec)
        ensures
            c@ == kill_command_of(self@),
    {
        let mut args: Vec<String> = Vec::new();
        match self.platform {
            Platform::Windows => {
                args.push(String::from_str("/F"));
                args.push(String::from_str("/IM"));
                args.push(self.daemon_name.clone());
                let c = CommandSpec {
                    program: String::from_str("taskkill"),
                    args,
                    dir: Some(self.dir.clone()),
                };
                assert(c@.args == seq!["/F"@, "/IM"@, self@.daemon_name]);
                c
            },
            Platform::Unix => {
                args.push(self.daemon_name.clone());
                let c = CommandSpec {
                    program: String::from_str("pkill"),
                    args,
                    dir: Some(self.dir.clone()),
                };
                assert(c@.args == seq![self@.daemon_name]);
                c
            },
        }
    }

    /// The command that starts the daemon afresh.
    pub fn start_command(&self) -> (c: CommandSpec)
        ensures
            c@ == start_command_of(self@),
    {
        let c = CommandSpec { program: self.daemon_name.clone(), args: Vec::new(), dir: None };
        assert(c@.args == Seq::<Seq<char>>::empty());
        c
    }
}

/// The proxy of the selected variant. Only Xray is implemented; any other
/// selection is refused.
pub fn new(t: &ProxyType, platform: Platform, dir: &str, url: &str, asset_name: &str) -> (r:
    Result<Xray, UnsupportedProxy>)
    ensures
        match r {
            Ok(x) => *t == ProxyType::Xray && x@ == xray_identity(
                platform,
                dir@,
                url@,
                asset_name@,
            ),
            Err(e) => *t != ProxyType::Xray && e.requested == *t,
        },
{
    match t {
        ProxyType::Xray => Ok(Xray::new(platform, dir, url, asset_name)),
        _ => Err(UnsupportedProxy { requested: *t }),
    }
}

} // verus!
