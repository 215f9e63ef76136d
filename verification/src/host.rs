//! What the caller has observed of the host: platform names, environment
//! variables and the output of a few system tools. The engine never reads the
//! environment itself; everything it knows of the host is in a [`HostFacts`].

use vstd::prelude::*;

use crate::text::str_eq;

verus! {

/// A snapshot of the host, taken by the caller.
#[derive(Clone, Debug, PartialEq, Eq)]
pub struct HostFacts {
    /// Operating system name, such as `linux` or `macos`.
    pub os: String,
    /// Processor architecture name.
    pub arch: String,
    /// Whether the platform is of the Unix family.
    pub unix: bool,
    /// The environment variables that are set, as (name, value) pairs.
    pub env: Vec<(String, String)>,
    /// The text of `/etc/os-release`, where it could be read.
    pub os_release: Option<String>,
    /// What `sw_vers -productVersion` printed, where it ran.
    pub product_version: Option<String>,
    /// What `uname -r` printed, where it ran.
    pub kernel_release: Option<String>,
    /// What `id -u` printed, where it ran.
    pub user_id_text: Option<String>,
}

/// The mathematical value of a [`HostFacts`].
pub struct HostView {
    pub os: Seq<char>,
    pub arch: Seq<char>,
    pub unix: bool,
    pub env: Seq<(Seq<char>, Seq<char>)>,
    pub os_release: Option<Seq<char>>,
    pub product_version: Option<Seq<char>>,
    pub kernel_release: Option<Seq<char>>,
    pub user_id_text: Option<Seq<char>>,
}

/// The names and values of a list of text pairs.
pub open spec fn pairs_view(pairs: Seq<(String, String)>) -> Seq<(Seq<char>, Seq<char>)> {
    Seq::new(pairs.len(), |i: int| (pairs[i].0@, pairs[i].1@))
}

/// The view of an optional text.
pub open spec fn opt_text(s: Option<String>) -> Option<Seq<char>> {
    match s {
        Some(t) => Some(t@),
        None => None,
    }
}

impl View for HostFacts {
    type V = HostView;

    open spec fn view(&self) -> HostView {
        HostView {
            os: self.os@,
            arch: self.arch@,
            unix: self.unix,
            env: pairs_view(self.env@),
            os_release: opt_text(self.os_release),
            product_version: opt_text(self.product_version),
            kernel_release: opt_text(self.kernel_release),
            user_id_text: opt_text(self.user_id_text),
        }
    }
}

/// The value of the first variable named `name`.
pub open spec fn env_lookup(env: Seq<(Seq<char>, Seq<char>)>, name: Seq<char>) -> Option<Seq<char>>
    decreases env.len(),
{
    if env.len() == 0 {
        None
    } else if env[0].0 == name {
        Some(env[0].1)
    } else {
        env_lookup(env.drop_first(), name)
    }
}

/// No attached display: on Linux neither `DISPLAY` nor `WAYLAND_DISPLAY` is
/// set; on macOS `SSH_TTY` is set and `DISPLAY` is not; never elsewhere.
pub open spec fn headless(host: HostView) -> bool {
    if host.os == "linux"@ {
        env_lookup(host.env, "DISPLAY"@) is None && env_lookup(host.env, "WAYLAND_DISPLAY"@) is None
    } else if host.os == "macos"@ {
        env_lookup(host.env, "SSH_TTY"@) is Some && env_lookup(host.env, "DISPLAY"@) is None
    } else {
        false
    }
}

impl HostFacts {
    /// The value of the environment variable `name`, if it is set.
    pub fn var(&self, name: &str) -> (value: Option<&str>)
        ensures
            match value {
                Some(v) => env_lookup(self@.env, name@) == Some(v@),
                None => env_lookup(self@.env, name@) is None,
            },
    {
        let ghost all = self@.env;
        proof {
            assert(all.skip(0) =~= all);
        }
        let mut i: usize = 0;
        while i < self.env.len()
            invariant
                i <= self.env.len(),
                all == self@.env,
                env_lookup(all, name@) == env_lookup(all.skip(i as int), name@),
            decreases self.env.len() - i,
        {
            let ghost rest = all.skip(i as int);
            assert(rest.len() > 0 && rest[0] == all[i as int]);
            assert(rest.drop_first() =~= all.skip(i + 1));
            if str_eq(self.env[i].0.as_str(), name) {
                return Some(self.env[i].1.as_str());
            }
            i += 1;
        }
        assert(all.skip(i as int).len() == 0);
        None
    }
}

/// The operating system name under which results report the host.
pub fn current_os(host: &HostFacts) -> (os: &str)
    ensures
        os@ == host@.os,
{
    host.os.as_str()
}

/// Whether the host has no attached display.
pub fn detect_headless(host: &HostFacts) -> (b: bool)
    ensures
        b == headless(host@),
{
    if str_eq(host.os.as_str(), "linux") {
        host.var("DISPLAY").is_none() && host.var("WAYLAND_DISPLAY").is_none()
    } else if str_eq(host.os.as_str(), "macos") {
        host.var("SSH_TTY").is_some() && host.var("DISPLAY").is_none()
    } else {
        false
    }
}

/// The variables through which a proxy is configured, in the order in which
/// they are reported.
pub open spec fn proxy_keys() -> Seq<Seq<char>> {
    seq!["HTTP_PROXY"@, "http_proxy"@, "HTTPS_PROXY"@, "https_proxy"@, "NO_PROXY"@, "no_proxy"@]
}

/// Those of the variables `keys` that are set, with their values, in the
/// order of `keys`.
pub open spec fn pick_vars(env: Seq<(Seq<char>, Seq<char>)>, keys: Seq<Seq<char>>) -> Seq<(Seq<char>, Seq<char>)>
    decreases keys.len(),
{
    if keys.len() == 0 {
        Seq::empty()
    } else {
        let rest = pick_vars(env, keys.drop_last());
        match env_lookup(env, keys.last()) {
            Some(v) => rest.push((keys.last(), v)),
            None => rest,
        }
    }
}

/// The proxy variables that are set on a host.
pub open spec fn proxy_env(host: HostView) -> Seq<(Seq<char>, Seq<char>)> {
    pick_vars(host.env, proxy_keys())
}

fn pick_var(host: &HostFacts, out: &mut Vec<(String, String)>, key: &str, Ghost(keys): Ghost<Seq<Seq<char>>>)
    requires
        pairs_view(old(out)@) == pick_vars(host@.env, keys),
    ensures
        pairs_view(final(out)@) == pick_vars(host@.env, keys.push(key@)),
{
    assert(keys.push(key@).drop_last() =~= keys);
    assert(keys.push(key@).last() == key@);
    match host.var(key) {
        Some(v) => {
            out.push((key.to_string(), v.to_string()));
            assert(pairs_view(out@) =~= pairs_view(old(out)@).push((key@, v@)));
        },
        None => {},
    }
}

/// The proxy variables that are set on the host, with their values.
pub fn collect_proxy_env(host: &HostFacts) -> (vars: Vec<(String, String)>)
    ensures
        pairs_view(vars@) == proxy_env(host@),
{
    let mut out: Vec<(String, String)> = Vec::new();
    let ghost k0 = Seq::<Seq<char>>::empty();
    assert(pairs_view(out@) =~= pick_vars(host@.env, k0));
    pick_var(host, &mut out, "HTTP_PROXY", Ghost(k0));
    let ghost k1 = k0.push("HTTP_PROXY"@);
    pick_var(host, &mut out, "http_proxy", Ghost(k1));
    let ghost k2 = k1.push("http_proxy"@);
    pick_var(host, &mut out, "HTTPS_PROXY", Ghost(k2));
    let ghost k3 = k2.push("HTTPS_PROXY"@);
    pick_var(host, &mut out, "https_proxy", Ghost(k3));
    let ghost k4 = k3.push("https_proxy"@);
    pick_var(host, &mut out, "NO_PROXY", Ghost(k4));
    let ghost k5 = k4.push("NO_PROXY"@);
    pick_var(host, &mut out, "no_proxy", Ghost(k5));
    assert(k5.push("no_proxy"@) =~= proxy_keys());
    out
}

} // verus!
