//! The M7 `sigma-m7-signals` RPMsg endpoint: which packets are decoded and
//! which character device carries the endpoint.
//!
//! The device is `RPMSG_DEVICE` when that variable is set (resolved like
//! every daemon variable: `SIGMA_RACER_WINGMAN_RPMSG_DEVICE` first, then the
//! bare name, an empty value counting as unset); otherwise it is
//! found under `/sys/bus/rpmsg/devices` as the entry whose `name` file holds
//! the endpoint name. The caller reads the environment and sysfs.

use crate::env::{opt_view, resolve_var, spec_resolve};
use crate::text::{trim, trims_to};
use vstd::prelude::*;

verus! {

/// Size of the buffer one read fills.
pub const READ_BUF_LEN: usize = 64;

/// Shortest read that holds a whole signal packet.
pub const MIN_PACKET_LEN: usize = 60;

/// Whether a read of `n` bytes is handed to the wire decoder.
pub fn accepts_packet(n: usize) -> (accepted: bool)
    ensures
        accepted == (n >= MIN_PACKET_LEN),
{
    n >= MIN_PACKET_LEN
}

/// The endpoint's name, as its sysfs `name` file spells it.
pub open spec fn endpoint() -> Seq<char> {
    seq!['s', 'i', 'g', 'm', 'a', '-', 'm', '7', '-', 's', 'i', 'g', 'n', 'a', 'l', 's']
}

/// Directory prefix of character devices.
pub open spec fn dev_prefix() -> Seq<char> {
    seq!['/', 'd', 'e', 'v', '/']
}

/// One entry of the sysfs device directory: its file name and the contents
/// of its `name` file (empty when that file could not be read).
pub struct DeviceEntry {
    pub file_name: String,
    pub name: String,
}

/// What listing the sysfs device directory gave.
pub enum SysfsScan {
    /// The directory does not exist.
    Missing,
    /// The directory could not be opened; the error's text.
    Unreadable(String),
    /// The directory's entries in listing order; an entry that could not be
    /// read is the error's text.
    Listed(Vec<Result<DeviceEntry, String>>),
}

/// Why no device was found.
#[derive(Debug)]
pub enum DeviceError {
    /// There is no sysfs RPMsg directory.
    SysfsMissing,
    /// Listing the directory failed; the error's text.
    Io(String),
    /// No entry carries the endpoint.
    NotFound,
}

/// Abstract [`DeviceError`].
pub enum DeviceErrorView {
    SysfsMissing,
    Io(Seq<char>),
    NotFound,
}

impl View for DeviceError {
    type V = DeviceErrorView;

    open spec fn view(&self) -> DeviceErrorView {
        match self {
            DeviceError::SysfsMissing => DeviceErrorView::SysfsMissing,
            DeviceError::Io(e) => DeviceErrorView::Io(e@),
            DeviceError::NotFound => DeviceErrorView::NotFound,
        }
    }
}

/// Abstract directory entry: file name and `name` contents, or the error.
pub open spec fn entry_view(e: Result<DeviceEntry, String>) -> Result<(Seq<char>, Seq<char>), Seq<char>> {
    match e {
        Ok(d) => Ok((d.file_name@, d.name@)),
        Err(msg) => Err(msg@),
    }
}

/// Scanning entries in order: the first unreadable entry ends the scan with
/// its error, the first entry whose trimmed name is the endpoint gives
/// `/dev/<file name>`, and running out of entries means not found.
pub open spec fn spec_scan(entries: Seq<Result<(Seq<char>, Seq<char>), Seq<char>>>) -> Result<Seq<char>, DeviceErrorView>
    decreases entries.len(),
{
    if entries.len() == 0 {
        Err(DeviceErrorView::NotFound)
    } else {
        match entries[0] {
            Err(msg) => Err(DeviceErrorView::Io(msg)),
            Ok((file_name, name)) => if trim(name) == endpoint() {
                Ok(dev_prefix() + file_name)
            } else {
                spec_scan(entries.drop_first())
            },
        }
    }
}

/// Abstract [`SysfsScan`].
pub open spec fn scan_view(scan: SysfsScan) -> Option<Result<Seq<Result<(Seq<char>, Seq<char>), Seq<char>>>, Seq<char>>> {
    match scan {
        SysfsScan::Missing => None,
        SysfsScan::Unreadable(e) => Some(Err(e@)),
        SysfsScan::Listed(v) => Some(Ok(v@.map_values(|e: Result<DeviceEntry, String>| entry_view(e)))),
    }
}

/// The device an override and a sysfs listing resolve to.
pub open spec fn spec_resolve_device(
    override_path: Option<Seq<char>>,
    scan: Option<Result<Seq<Result<(Seq<char>, Seq<char>), Seq<char>>>, Seq<char>>>,
) -> Result<Seq<char>, DeviceErrorView> {
    match override_path {
        Some(p) => Ok(p),
        None => match scan {
            None => Err(DeviceErrorView::SysfsMissing),
            Some(Err(e)) => Err(DeviceErrorView::Io(e)),
            Some(Ok(entries)) => spec_scan(entries),
        },
    }
}

/// The view of a resolution result.
pub open spec fn resolved_view(r: Result<String, DeviceError>) -> Result<Seq<char>, DeviceErrorView> {
    match r {
        Ok(p) => Ok(p@),
        Err(e) => Err(e@),
    }
}

/// An entry that a scan passes over: readable, and not naming the
/// endpoint.
pub open spec fn passed_over(e: Result<(Seq<char>, Seq<char>), Seq<char>>) -> bool {
    e matches Ok((f, n)) && trim(n) != seq!['s', 'i', 'g', 'm', 'a', '-', 'm', '7', '-', 's', 'i', 'g', 'n', 'a', 'l', 's']
}

/// What a scan of the sysfs listing finds, for every listing: a device is
/// `/dev/` followed by the file name of an entry whose trimmed `name` is
/// `sigma-m7-signals`, with every entry before it readable and not naming
/// the endpoint; an I/O error is the error of an unreadable entry, with
/// every entry before it passed over; not found means every entry was
/// passed over. A scan never reports a missing directory.
pub proof fn lemma_scan_finds_first(entries: Seq<Result<(Seq<char>, Seq<char>), Seq<char>>>)
    ensures
        spec_scan(entries) matches Ok(path) ==> exists|i: int|
            #![trigger entries[i]]
            0 <= i < entries.len() && (entries[i] matches Ok((f, n)) && trim(n) == seq![
                's',
                'i',
                'g',
                'm',
                'a',
                '-',
                'm',
                '7',
                '-',
                's',
                'i',
                'g',
                'n',
                'a',
                'l',
                's',
            ] && path == seq!['/', 'd', 'e', 'v', '/'] + f) && forall|j: int|
                0 <= j < i ==> passed_over(#[trigger] entries[j]),
        spec_scan(entries) matches Err(DeviceErrorView::Io(msg)) ==> exists|i: int|
            #![trigger entries[i]]
            0 <= i < entries.len() && entries[i] == Err::<(Seq<char>, Seq<char>), Seq<char>>(msg)
                && forall|j: int| 0 <= j < i ==> passed_over(#[trigger] entries[j]),
        spec_scan(entries) matches Err(DeviceErrorView::NotFound) ==> forall|j: int|
            0 <= j < entries.len() ==> passed_over(#[trigger] entries[j]),
        !(spec_scan(entries) matches Err(DeviceErrorView::SysfsMissing)),
    decreases entries.len(),
{
    if entries.len() > 0 {
        let rest = entries.drop_first();
        lemma_scan_finds_first(rest);
        assert forall|j: int| 0 <= j < rest.len() implies rest[j] == entries[j + 1] by {}
        match spec_scan(entries) {
            Ok(path) => {
                if !(entries[0] is Ok && trim(entries[0]->Ok_0.1) == endpoint()) {
                    let i = choose|i: int|
                        #![trigger rest[i]]
                        0 <= i < rest.len() && (rest[i] matches Ok((f, n)) && trim(n) == endpoint()
                            && path == dev_prefix() + f) && forall|j: int|
                            0 <= j < i ==> passed_over(#[trigger] rest[j]);
                    assert(entries[i + 1] == rest[i]);
                    assert forall|j: int| 0 <= j < i + 1 implies passed_over(#[trigger] entries[j]) by {
                        if j > 0 {
                            assert(entries[j] == rest[j - 1]);
                        }
                    }
                }
            },
            Err(DeviceErrorView::Io(msg)) => {
                if !(entries[0] is Err) {
                    let i = choose|i: int|
                        #![trigger rest[i]]
                        0 <= i < rest.len() && rest[i] == Err::<(Seq<char>, Seq<char>), Seq<char>>(msg)
                            && forall|j: int| 0 <= j < i ==> passed_over(#[trigger] rest[j]);
                    assert(entries[i + 1] == rest[i]);
                    assert forall|j: int| 0 <= j < i + 1 implies passed_over(#[trigger] entries[j]) by {
                        if j > 0 {
                            assert(entries[j] == rest[j - 1]);
                        }
                    }
                }
            },
            Err(DeviceErrorView::NotFound) => {
                assert forall|j: int| 0 <= j < entries.len() implies passed_over(#[trigger] entries[j]) by {
                    if j > 0 {
                        assert(entries[j] == rest[j - 1]);
                    }
                }
            },
            _ => {},
        }
    }
}

/// Where the device comes from, for every override and listing: a set
/// override is the device whatever sysfs holds; without one, a missing
/// directory and an unreadable directory are reported as such, and a
/// listing is scanned.
pub proof fn lemma_override_first(
    override_path: Option<Seq<char>>,
    scan: Option<Result<Seq<Result<(Seq<char>, Seq<char>), Seq<char>>>, Seq<char>>>,
)
    ensures
        override_path matches Some(p) ==> spec_resolve_device(override_path, scan) == Ok::<
            Seq<char>,
            DeviceErrorView,
        >(p),
        (override_path is None && scan is None) ==> spec_resolve_device(override_path, scan)
            == Err::<Seq<char>, DeviceErrorView>(DeviceErrorView::SysfsMissing),
        override_path is None ==> (scan matches Some(Err(e)) ==> spec_resolve_device(
            override_path,
            scan,
        ) == Err::<Seq<char>, DeviceErrorView>(DeviceErrorView::Io(e))),
        override_path is None ==> (scan matches Some(Ok(entries)) ==> spec_resolve_device(
            override_path,
            scan,
        ) == spec_scan(entries)),
{
}

/// Whether the contents of a sysfs `name` file name the endpoint.
pub fn names_endpoint(name: &str) -> (found: bool)
    ensures
        found == (trim(name@) == endpoint()),
        found == (trim(name@) == seq!['s', 'i', 'g', 'm', 'a', '-', 'm', '7', '-', 's', 'i', 'g', 'n', 'a', 'l', 's']),
{
    proof {
        reveal_strlit("sigma-m7-signals");
        assert("sigma-m7-signals"@ =~= endpoint());
    }
    trims_to(name, "sigma-m7-signals")
}

/// The character device of a sysfs entry.
pub fn device_path(file_name: &str) -> (path: String)
    ensures
        path@ == dev_prefix() + file_name@,
        path@ == seq!['/', 'd', 'e', 'v', '/'] + file_name@,
{
    let mut path = String::from_str("/dev/");
    proof {
        reveal_strlit("/dev/");
        assert("/dev/"@ =~= dev_prefix());
    }
    path.append(file_name);
    path
}

proof fn lemma_scan_step(entries: Seq<Result<(Seq<char>, Seq<char>), Seq<char>>>, i: int)
    requires
        0 <= i < entries.len(),
        entries[i] is Ok,
        trim(entries[i]->Ok_0.1) != endpoint(),
    ensures
        spec_scan(entries.skip(i)) == spec_scan(entries.skip(i + 1)),
{
    let t = entries.skip(i);
    assert(t[0] == entries[i]);
    assert(t.drop_first() =~= entries.skip(i + 1));
}

/// Resolve the RPMsg character device. `namespaced` and `bare` are the
/// values of `SIGMA_RACER_WINGMAN_RPMSG_DEVICE` and `RPMSG_DEVICE`; the
/// variable they resolve to wins when set, otherwise the sysfs listing is
/// scanned.
pub fn resolve_device(namespaced: Option<String>, bare: Option<String>, scan: SysfsScan) -> (r: Result<String, DeviceError>)
    ensures
        resolved_view(r) == spec_resolve_device(spec_resolve(opt_view(namespaced), opt_view(bare)), scan_view(scan)),
{
    let override_path = resolve_var(namespaced, bare);
    if let Some(p) = override_path {
        return Ok(p);
    }
    match scan {
        SysfsScan::Missing => Err(DeviceError::SysfsMissing),
        SysfsScan::Unreadable(e) => Err(DeviceError::Io(e)),
        SysfsScan::Listed(entries) => {
            let ghost ev = entries@.map_values(|e: Result<DeviceEntry, String>| entry_view(e));
            let mut i: usize = 0;
            assert(ev.skip(0) =~= ev);
            while i < entries.len()
                invariant
                    i <= entries@.len(),
                    ev == entries@.map_values(|e: Result<DeviceEntry, String>| entry_view(e)),
                    spec_resolve(opt_view(namespaced), opt_view(bare)) is None,
                    scan_view(scan) == Some(Ok::<Seq<Result<(Seq<char>, Seq<char>), Seq<char>>>, Seq<char>>(ev)),
                    spec_scan(ev) == spec_scan(ev.skip(i as int)),
                decreases entries@.len() - i,
            {
                assert(ev[i as int] == entry_view(entries@[i as int]));
                match &entries[i] {
                    Err(e) => {
                        let ghost t = ev.skip(i as int);
                        assert(t[0] == ev[i as int]);
                        assert(ev[i as int] == Err::<(Seq<char>, Seq<char>), Seq<char>>(e@));
                        return Err(DeviceError::Io(e.clone()));
                    },
                    Ok(d) => {
                        if names_endpoint(d.name.as_str()) {
                            let ghost t = ev.skip(i as int);
                            assert(t[0] == ev[i as int]);
                            assert(ev[i as int] == Ok::<(Seq<char>, Seq<char>), Seq<char>>((d.file_name@, d.name@)));
                            return Ok(device_path(d.file_name.as_str()));
                        }
                        proof {
                            lemma_scan_step(ev, i as int);
                        }
                    },
                }
                i = i + 1;
            }
            assert(ev.skip(i as int).len() == 0);
            Err(DeviceError::NotFound)
        },
    }
}

impl DeviceError {
    /// The human-readable reason.
    pub fn message(&self) -> (msg: String)
        ensures
            msg@ == match self@ {
                DeviceErrorView::SysfsMissing => "rpmsg sysfs missing — is imx remoteproc running?"@,
                DeviceErrorView::Io(e) => e,
                DeviceErrorView::NotFound => "rpmsg endpoint 'sigma-m7-signals' not found — create it from sysfs or set RPMSG_DEVICE"@,
            },
    {
        match self {
            DeviceError::SysfsMissing => String::from_str("rpmsg sysfs missing — is imx remoteproc running?"),
            DeviceError::Io(e) => e.clone(),
            DeviceError::NotFound => String::from_str("rpmsg endpoint 'sigma-m7-signals' not found — create it from sysfs or set RPMSG_DEVICE"),
        }
    }
}

} // verus!
