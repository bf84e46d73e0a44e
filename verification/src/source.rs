//! Choice of the daemon's signal input and what each input does per sample.
//!
//! `VEHICLE_SOURCE` names the input: `sim` (the default), `can`/`socketcan`,
//! or `rpmsg`/`m7`. The buses themselves are opened by the caller.

use crate::text::same_chars;
use vstd::prelude::*;

verus! {

/// The kinds of signal input.
#[derive(Clone, Copy, Debug, PartialEq, Eq, Structural)]
pub enum SourceKind {
    /// The built-in ride simulator.
    Sim,
    /// Live SocketCAN.
    Can,
    /// The M7 RPMsg character device.
    Rpmsg,
}

/// Why a `VEHICLE_SOURCE` value cannot be used.
#[derive(Debug)]
pub enum SourceError {
    /// CAN was asked for, but this build has no CAN support.
    CanUnsupported,
    /// RPMsg was asked for, but this build has no RPMsg support.
    RpmsgUnsupported,
    /// The value names no known source.
    Unknown(String),
}

/// Abstract [`SourceError`].
pub enum SourceErrorView {
    CanUnsupported,
    RpmsgUnsupported,
    Unknown(Seq<char>),
}

impl View for SourceError {
    type V = SourceErrorView;

    open spec fn view(&self) -> SourceErrorView {
        match self {
            SourceError::CanUnsupported => SourceErrorView::CanUnsupported,
            SourceError::RpmsgUnsupported => SourceErrorView::RpmsgUnsupported,
            SourceError::Unknown(s) => SourceErrorView::Unknown(s@),
        }
    }
}

pub open spec fn sim_name() -> Seq<char> {
    seq!['s', 'i', 'm']
}

pub open spec fn can_name() -> Seq<char> {
    seq!['c', 'a', 'n']
}

pub open spec fn socketcan_name() -> Seq<char> {
    seq!['s', 'o', 'c', 'k', 'e', 't', 'c', 'a', 'n']
}

pub open spec fn rpmsg_name() -> Seq<char> {
    seq!['r', 'p', 'm', 's', 'g']
}

pub open spec fn m7_name() -> Seq<char> {
    seq!['m', '7']
}

/// The short name a source kind reports.
pub open spec fn spec_name(kind: SourceKind) -> Seq<char> {
    match kind {
        SourceKind::Sim => sim_name(),
        SourceKind::Can => can_name(),
        SourceKind::Rpmsg => rpmsg_name(),
    }
}

/// The source a `VEHICLE_SOURCE` value selects in a build with or without
/// CAN and RPMsg support.
pub open spec fn spec_select(name: Seq<char>, can_built: bool, rpmsg_built: bool) -> Result<SourceKind, SourceErrorView> {
    if name == sim_name() {
        Ok(SourceKind::Sim)
    } else if name == can_name() || name == socketcan_name() {
        if can_built {
            Ok(SourceKind::Can)
        } else {
            Err(SourceErrorView::CanUnsupported)
        }
    } else if name == rpmsg_name() || name == m7_name() {
        if rpmsg_built {
            Ok(SourceKind::Rpmsg)
        } else {
            Err(SourceErrorView::RpmsgUnsupported)
        }
    } else {
        Err(SourceErrorView::Unknown(name))
    }
}

/// The view of a selection result.
pub open spec fn select_view(r: Result<SourceKind, SourceError>) -> Result<SourceKind, SourceErrorView> {
    match r {
        Ok(k) => Ok(k),
        Err(e) => Err(e@),
    }
}

/// Select the source named by `name` (the value of `VEHICLE_SOURCE`).
/// `can_built` and `rpmsg_built` say which bus inputs this build carries.
pub fn select_source(name: &str, can_built: bool, rpmsg_built: bool) -> (r: Result<SourceKind, SourceError>)
    ensures
        select_view(r) == spec_select(name@, can_built, rpmsg_built),
        (name@ == seq!['c', 'a', 'n'] || name@ == seq!['s', 'o', 'c', 'k', 'e', 't', 'c', 'a', 'n'])
            ==> (can_built ==> r matches Ok(SourceKind::Can)) && (!can_built ==> r matches Err(
            SourceError::CanUnsupported)),
        (name@ == seq!['r', 'p', 'm', 's', 'g'] || name@ == seq!['m', '7']) ==> (rpmsg_built
            ==> r matches Ok(SourceKind::Rpmsg)) && (!rpmsg_built ==> r matches Err(
            SourceError::RpmsgUnsupported)),
        name@ == seq!['s', 'i', 'm'] ==> r matches Ok(SourceKind::Sim),
{
    proof {
        reveal_strlit("sim");
        reveal_strlit("can");
        reveal_strlit("socketcan");
        reveal_strlit("rpmsg");
        reveal_strlit("m7");
        assert("sim"@ =~= sim_name());
        assert("can"@ =~= can_name());
        assert("socketcan"@ =~= socketcan_name());
        assert("rpmsg"@ =~= rpmsg_name());
        assert("m7"@ =~= m7_name());
    }
    if same_chars(name, "sim") {
        Ok(SourceKind::Sim)
    } else if same_chars(name, "can") || same_chars(name, "socketcan") {
        if can_built {
            Ok(SourceKind::Can)
        } else {
            Err(SourceError::CanUnsupported)
        }
    } else if same_chars(name, "rpmsg") || same_chars(name, "m7") {
        if rpmsg_built {
            Ok(SourceKind::Rpmsg)
        } else {
            Err(SourceError::RpmsgUnsupported)
        }
    } else {
        Err(SourceError::Unknown(name.to_owned()))
    }
}

impl SourceKind {
    /// Short source name for the start-up log line.
    pub fn name(&self) -> (name: &'static str)
        ensures
            name@ == spec_name(*self),
            *self == SourceKind::Sim ==> name@ == seq!['s', 'i', 'm'],
            *self == SourceKind::Can ==> name@ == seq!['c', 'a', 'n'],
            *self == SourceKind::Rpmsg ==> name@ == seq!['r', 'p', 'm', 's', 'g'],
    {
        proof {
            reveal_strlit("sim");
            reveal_strlit("can");
            reveal_strlit("rpmsg");
            assert("sim"@ =~= sim_name());
            assert("can"@ =~= can_name());
            assert("rpmsg"@ =~= rpmsg_name());
        }
        match self {
            SourceKind::Sim => "sim",
            SourceKind::Can => "can",
            SourceKind::Rpmsg => "rpmsg",
        }
    }

    /// Whether the source is driven by elapsed time (only the simulator is).
    pub fn needs_step(&self) -> (steps: bool)
        ensures
            steps == (*self == SourceKind::Sim),
    {
        match self {
            SourceKind::Sim => true,
            _ => false,
        }
    }
}


impl SourceError {
    /// The human-readable reason.
    pub fn message(&self) -> (msg: String)
        ensures
            msg@ == match self@ {
                SourceErrorView::CanUnsupported => "VEHICLE_SOURCE=can requires a build with can-socket feature enabled"@,
                SourceErrorView::RpmsgUnsupported => "VEHICLE_SOURCE=rpmsg requires a build with rpmsg feature enabled"@,
                SourceErrorView::Unknown(name) => "unknown VEHICLE_SOURCE: "@ + name,
            },
    {
        match self {
            SourceError::CanUnsupported => String::from_str("VEHICLE_SOURCE=can requires a build with can-socket feature enabled"),
            SourceError::RpmsgUnsupported => String::from_str("VEHICLE_SOURCE=rpmsg requires a build with rpmsg feature enabled"),
            SourceError::Unknown(name) => {
                let mut msg = String::from_str("unknown VEHICLE_SOURCE: ");
                msg.append(name.as_str());
                msg
            },
        }
    }
}

/// What one sample does with the state once the source has been read.
#[derive(Clone, Copy, Debug, PartialEq, Eq, Structural)]
pub struct ApplyPlan {
    /// The value `signals_live` takes.
    pub signals_live: bool,
    /// Whether every signal is marked as just received.
    pub mark_all: bool,
    /// Whether the simulated frames are mirrored to the CAN logger.
    pub log_sim_frames: bool,
}

/// The per-sample plan of a source whose bus reports `bus_live`: the
/// simulator is always live, marks every signal and logs its frames; a CAN
/// bus is live while frames arrive and marks signals frame by frame; the
/// RPMsg bridge delivers the whole signal set at once, so it marks every
/// signal while it is live.
pub fn apply_plan(kind: SourceKind, bus_live: bool) -> (plan: ApplyPlan)
    ensures
        plan == match kind {
            SourceKind::Sim => ApplyPlan { signals_live: true, mark_all: true, log_sim_frames: true },
            SourceKind::Can => ApplyPlan { signals_live: bus_live, mark_all: false, log_sim_frames: false },
            SourceKind::Rpmsg => ApplyPlan { signals_live: bus_live, mark_all: bus_live, log_sim_frames: false },
        },
{
    match kind {
        SourceKind::Sim => ApplyPlan { signals_live: true, mark_all: true, log_sim_frames: true },
        SourceKind::Can => ApplyPlan { signals_live: bus_live, mark_all: false, log_sim_frames: false },
        SourceKind::Rpmsg => ApplyPlan { signals_live: bus_live, mark_all: bus_live, log_sim_frames: false },
    }
}

/// How a `VEHICLE_SOURCE` value selects a source, for every value and every
/// build: `sim` always selects the simulator; `can` and `socketcan` select
/// CAN exactly when the build carries CAN, whatever it carries besides, and
/// are refused as unsupported otherwise; `rpmsg` and `m7` likewise depend on
/// RPMsg support alone; every other value is refused as unknown, naming the
/// value.
pub proof fn lemma_selection(name: Seq<char>, can_built: bool, rpmsg_built: bool)
    ensures
        name == seq!['s', 'i', 'm'] ==> spec_select(name, can_built, rpmsg_built) == Ok::<
            SourceKind,
            SourceErrorView,
        >(SourceKind::Sim),
        (name == seq!['c', 'a', 'n'] || name == seq!['s', 'o', 'c', 'k', 'e', 't', 'c', 'a', 'n'])
            ==> spec_select(name, can_built, rpmsg_built) == if can_built {
            Ok::<SourceKind, SourceErrorView>(SourceKind::Can)
        } else {
            Err(SourceErrorView::CanUnsupported)
        },
        (name == seq!['r', 'p', 'm', 's', 'g'] || name == seq!['m', '7']) ==> spec_select(
            name,
            can_built,
            rpmsg_built,
        ) == if rpmsg_built {
            Ok::<SourceKind, SourceErrorView>(SourceKind::Rpmsg)
        } else {
            Err(SourceErrorView::RpmsgUnsupported)
        },
        (name != seq!['s', 'i', 'm'] && name != seq!['c', 'a', 'n'] && name != seq![
            's',
            'o',
            'c',
            'k',
            'e',
            't',
            'c',
            'a',
            'n',
        ] && name != seq!['r', 'p', 'm', 's', 'g'] && name != seq!['m', '7']) ==> spec_select(
            name,
            can_built,
            rpmsg_built,
        ) == Err::<SourceKind, SourceErrorView>(SourceErrorView::Unknown(name)),
{
    assert(seq!['c', 'a', 'n'] != seq!['s', 'i', 'm']);
    assert(seq!['s', 'o', 'c', 'k', 'e', 't', 'c', 'a', 'n'].len() != seq!['s', 'i', 'm'].len());
    assert(seq!['r', 'p', 'm', 's', 'g'].len() != seq!['s', 'i', 'm'].len());
    assert(seq!['m', '7'].len() != seq!['s', 'i', 'm'].len());
    assert(seq!['r', 'p', 'm', 's', 'g'].len() != seq!['c', 'a', 'n'].len());
    assert(seq!['m', '7'].len() != seq!['c', 'a', 'n'].len());
    assert(seq!['r', 'p', 'm', 's', 'g'].len() != seq!['s', 'o', 'c', 'k', 'e', 't', 'c', 'a', 'n'].len());
    assert(seq!['m', '7'].len() != seq!['s', 'o', 'c', 'k', 'e', 't', 'c', 'a', 'n'].len());
}

/// The name a source reports selects that same source again (in a build
/// that carries every bus input).
pub proof fn lemma_name_selects_kind(kind: SourceKind)
    ensures
        spec_select(spec_name(kind), true, true) == Ok::<SourceKind, SourceErrorView>(kind),
{
}

} // verus!
