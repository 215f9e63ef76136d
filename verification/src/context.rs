//! The execution context: the capability backends and the configuration that
//! every engine operation works with.

use vstd::prelude::*;

use crate::host::{detect_headless, headless, HostFacts};
use crate::platform::{ClipboardBackend, HeadlessClipboard};
use crate::traits::{ClipboardOps, FilesystemOps, NetworkOps};

verus! {

/// The address that the network probe contacts unless configured otherwise.
pub open spec fn default_probe_host() -> Seq<char> {
    "https://httpbin.org/get"@
}

/// The context handed to every engine operation. It is built once and only
/// read afterwards.
pub struct AppContext {
    pub fs: Box<dyn FilesystemOps>,
    pub network: Box<dyn NetworkOps>,
    pub clipboard: ClipboardBackend,
    /// Target of the network probe.
    pub network_probe_host: String,
    /// The host as the caller observed it.
    pub host: HostFacts,
}

impl AppContext {
    /// A context over the given backends. It holds the three backends that
    /// it is given, whatever the host is like.
    pub fn new(
        fs: Box<dyn FilesystemOps>,
        network: Box<dyn NetworkOps>,
        clipboard: Box<dyn ClipboardOps>,
        host: HostFacts,
    ) -> (ctx: Self)
        ensures
            ctx == (AppContext { fs, network, clipboard: ClipboardBackend::System(clipboard), ..ctx }),
            ctx.host == host,
            ctx.network_probe_host@ == default_probe_host(),
    {
        AppContext {
            fs,
            network,
            clipboard: ClipboardBackend::System(clipboard),
            network_probe_host: "https://httpbin.org/get".to_string(),
            host,
        }
    }

    /// A context for the platform at hand. It holds the two backends that it
    /// is given, and as its clipboard the headless one where the host has no
    /// display and the given one otherwise. The choice is made here, once.
    pub fn default_platform(
        fs: Box<dyn FilesystemOps>,
        network: Box<dyn NetworkOps>,
        system_clipboard: Box<dyn ClipboardOps>,
        host: HostFacts,
    ) -> (ctx: Self)
        ensures
            headless(host@) ==> ctx == (AppContext {
                fs,
                network,
                clipboard: ClipboardBackend::Headless(HeadlessClipboard),
                ..ctx
            }),
            !headless(host@) ==> ctx == (AppContext {
                fs,
                network,
                clipboard: ClipboardBackend::System(system_clipboard),
                ..ctx
            }),
            ctx.clipboard is Headless <==> headless(host@),
            ctx.host == host,
            ctx.network_probe_host@ == default_probe_host(),
    {
        if detect_headless(&host) {
            AppContext {
                fs,
                network,
                clipboard: ClipboardBackend::Headless(HeadlessClipboard),
                network_probe_host: "https://httpbin.org/get".to_string(),
                host,
            }
        } else {
            AppContext {
                fs,
                network,
                clipboard: ClipboardBackend::System(system_clipboard),
                network_probe_host: "https://httpbin.org/get".to_string(),
                host,
            }
        }
    }

    /// A context for headless and CI hosts. It holds the two backends that
    /// it is given and always the headless clipboard, which refuses every
    /// operation as unsupported.
    pub fn default_headless(fs: Box<dyn FilesystemOps>, network: Box<dyn NetworkOps>, host: HostFacts) -> (ctx:
        Self)
        ensures
            ctx == (AppContext { fs, network, clipboard: ClipboardBackend::Headless(HeadlessClipboard), ..ctx }),
            ctx.clipboard is Headless,
            ctx.host == host,
            ctx.network_probe_host@ == default_probe_host(),
    {
        AppContext {
            fs,
            network,
            clipboard: ClipboardBackend::Headless(HeadlessClipboard),
            network_probe_host: "https://httpbin.org/get".to_string(),
            host,
        }
    }

    /// The filesystem backend that the context holds.
    pub fn fs(&self) -> (ops: &Box<dyn FilesystemOps>)
        ensures ops == &self.fs,
    { &self.fs }

    /// The network backend that the context holds.
    pub fn network(&self) -> (ops: &Box<dyn NetworkOps>)
        ensures ops == &self.network,
    { &self.network }

    /// The clipboard backend that the context holds.
    pub fn clipboard(&self) -> (ops: &ClipboardBackend)
        ensures ops == &self.clipboard,
    { &self.clipboard }
}

} // verus!
