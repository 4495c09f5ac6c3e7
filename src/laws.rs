//! Properties of the library, stated over the spec functions that the
//! executable functions' contracts use.
use vstd::prelude::*;
use crate::config::{config_of, settings_of, ArgsView, ConfigView};
use crate::docker::{compose_text, descriptor_of, COMPOSE_ENV, COMPOSE_HEAD, COMPOSE_PORTS, CONTAINER_PREFIX};
use crate::provision::{
    created_note_of, initial_of, next_of, record_of, report_of, warning_of, ActionView, Artifact,
    EventView, NonEmptyPolicy, ProvisionView, DESCRIPTOR_FILE, SETTINGS_FILE,
};
use crate::text::{decimal, lower_of, upper_of};

verus! {

/// Rendering a built configuration depends on the build's inputs alone: equal
/// inputs give the same descriptor and the same settings text.
pub proof fn lemma_render_deterministic(
    name1: Seq<char>, version1: Seq<char>, jar1: Seq<char>, port1: u16,
    name2: Seq<char>, version2: Seq<char>, jar2: Seq<char>, port2: u16,
)
    requires
        name1 == name2,
        version1 == version2,
        jar1 == jar2,
        port1 == port2,
    ensures
        descriptor_of(config_of(name1, version1, jar1, port1))
            == descriptor_of(config_of(name2, version2, jar2, port2)),
        settings_of(config_of(name1, version1, jar1, port1))
            == settings_of(config_of(name2, version2, jar2, port2)),
{
}

/// The descriptor's `container_name:` line holds `mc-` followed by the
/// lower-cased name, and ends there.
pub proof fn lemma_container_name(name: Seq<char>, mc_version: Seq<char>, jar: Seq<char>, port: u16)
    requires
        name.len() > 0,
    ensures
        ({
            let d = descriptor_of(config_of(name, mc_version, jar, port));
            let start = COMPOSE_HEAD@.len() as int;
            let value = "mc-"@ + lower_of(name);
            &&& d.subrange(start - "container_name: "@.len(), start) == "container_name: "@
            &&& d.subrange(start, start + value.len() as int) == value
            &&& d[start + value.len() as int] == '\n'
        }),
{
    let d = descriptor_of(config_of(name, mc_version, jar, port));
    let head = COMPOSE_HEAD@;
    let hl = head.len() as int;
    let value = CONTAINER_PREFIX@ + lower_of(name);
    let rest = COMPOSE_PORTS@ + decimal(port as nat) + COMPOSE_ENV@ + upper_of(jar)
        + crate::docker::COMPOSE_VERSION@ + mc_version + crate::docker::COMPOSE_TAIL@;
    reveal_strlit("services:\n  minecraft:\n    image: itzg/minecraft-server:latest\n    container_name: ");
    reveal_strlit("container_name: ");
    reveal_strlit("mc-");
    reveal_strlit("\n    stdin_open: true\n    tty: true\n    ports:\n      - ");
    assert(d =~= head + value + rest);
    let vl = value.len() as int;
    assert(d.subrange(hl - 16, hl) =~= "container_name: "@);
    assert(d.subrange(hl, hl + vl) =~= value);
    assert(d[hl + vl] == rest[0]);
}

/// The descriptor's `TYPE=` entry holds the upper-cased software name, and
/// ends there.
pub proof fn lemma_server_type(name: Seq<char>, mc_version: Seq<char>, jar: Seq<char>, port: u16)
    ensures
        ({
            let d = descriptor_of(config_of(name, mc_version, jar, port));
            let start = (COMPOSE_HEAD@ + "mc-"@ + lower_of(name) + COMPOSE_PORTS@ + decimal(port as nat) + COMPOSE_ENV@).len() as int;
            let value = upper_of(jar);
            &&& d.subrange(start - "TYPE="@.len(), start) == "TYPE="@
            &&& d.subrange(start, start + value.len() as int) == value
            &&& d[start + value.len() as int] == '\n'
        }),
{
    let d = descriptor_of(config_of(name, mc_version, jar, port));
    let front = COMPOSE_HEAD@ + CONTAINER_PREFIX@ + lower_of(name) + COMPOSE_PORTS@ + decimal(port as nat) + COMPOSE_ENV@;
    let value = upper_of(jar);
    let rest = crate::docker::COMPOSE_VERSION@ + mc_version + crate::docker::COMPOSE_TAIL@;
    reveal_strlit(":25565\n    volumes:\n      - ./data:/data\n    environment:\n      - EULA=TRUE\n      - TYPE=");
    reveal_strlit("TYPE=");
    reveal_strlit("mc-");
    reveal_strlit("\n      - VERSION=");
    assert(d =~= front + value + rest);
    let fl = front.len() as int;
    let vl = value.len() as int;
    let el = COMPOSE_ENV@.len() as int;
    assert(front.subrange(fl - 5, fl) =~= COMPOSE_ENV@.subrange(el - 5, el));
    assert(d.subrange(fl - 5, fl) =~= "TYPE="@);
    assert(d.subrange(fl, fl + vl) =~= value);
    assert(d[fl + vl] == rest[0]);
}

/// A filesystem and user in which no operation fails: what the caller of the
/// provisioning machine finds.
pub struct World {
    /// Whether the named target path exists.
    pub exists: bool,
    /// Whether the target directory is empty (once it exists).
    pub empty: bool,
    /// How the working directory is displayed.
    pub cwd: Seq<char>,
    /// The user's answer to a confirmation.
    pub answer: bool,
    /// The target's final path segment.
    pub segment: Option<Seq<char>>,
}

/// The outcome of performing `a` in `w`.
pub open spec fn respond(w: World, a: ActionView) -> EventView {
    match a {
        ActionView::CheckExists(_) => EventView::Exists(w.exists),
        ActionView::CreateDir(_) => EventView::Created,
        ActionView::ResolveCurrentDir => EventView::Resolved(w.cwd),
        ActionView::ListDir { .. } => EventView::Listed(w.empty),
        ActionView::AskConfirm(_) => EventView::Answered(w.answer),
        ActionView::NameTarget { .. } => EventView::Named(w.segment),
        ActionView::Write { artifact, .. } => EventView::Wrote(artifact),
        ActionView::Finish(_) => EventView::Failed(Seq::empty()),
    }
}

/// The actions of a run from `v` in `w`, up to and including `Finish`, or
/// the first `fuel + 1` of them.
pub open spec fn run(v: ProvisionView, w: World, fuel: nat) -> Seq<ActionView>
    decreases fuel,
{
    let a = next_of(v);
    if fuel == 0 || a is Finish {
        seq![a]
    } else {
        seq![a] + run(record_of(v, respond(w, a)), w, (fuel - 1) as nat)
    }
}

/// The write of the settings file for configuration `c`.
pub open spec fn settings_write(c: ConfigView) -> ActionView {
    ActionView::Write {
        artifact: Artifact::Settings,
        file: SETTINGS_FILE@,
        contents: settings_of(c),
        note: Some(crate::config::info_of(c)),
    }
}

/// The write of the descriptor file for configuration `c`.
pub open spec fn descriptor_write(c: ConfigView) -> ActionView {
    ActionView::Write {
        artifact: Artifact::Descriptor,
        file: DESCRIPTOR_FILE@,
        contents: descriptor_of(c),
        note: None,
    }
}

/// A run on a named target that does not exist checks for it, creates it,
/// and only then lists it and writes the two files; it ends in success.
pub proof fn lemma_fresh_target(args: ArgsView, policy: NonEmptyPolicy, w: World, seg: Seq<char>)
    requires
        args.name is Some,
        !w.exists,
        w.empty,
        w.segment == Some(seg),
        seg.len() > 0,
    ensures
        ({
            let n = args.name->Some_0;
            let c = config_of(seg, args.mc_version, args.jar, args.port);
            run(initial_of(args, policy), w, 10) == seq![
                ActionView::CheckExists(n),
                ActionView::CreateDir(n),
                ActionView::ListDir { note: Some(created_note_of(n)) },
                ActionView::NameTarget { note: None },
                settings_write(c),
                descriptor_write(c),
                ActionView::Finish(Ok(report_of(n))),
            ]
        }),
        forall|i: int| 0 <= i < run(initial_of(args, policy), w, 10).len()
            && #[trigger] run(initial_of(args, policy), w, 10)[i] is Write ==> i > 1,
{
    let n = args.name->Some_0;
    let c = config_of(seg, args.mc_version, args.jar, args.port);
    let v0 = initial_of(args, policy);
    let v1 = record_of(v0, respond(w, next_of(v0)));
    let v2 = record_of(v1, respond(w, next_of(v1)));
    let v3 = record_of(v2, respond(w, next_of(v2)));
    let v4 = record_of(v3, respond(w, next_of(v3)));
    let v5 = record_of(v4, respond(w, next_of(v4)));
    let v6 = record_of(v5, respond(w, next_of(v5)));
    assert(next_of(v0) == ActionView::CheckExists(n));
    assert(next_of(v1) == ActionView::CreateDir(n));
    assert(next_of(v2) == ActionView::ListDir { note: Some(created_note_of(n)) });
    assert(next_of(v3) == ActionView::NameTarget { note: None });
    assert(next_of(v4) == settings_write(c));
    assert(next_of(v5) == descriptor_write(c));
    assert(next_of(v6) == ActionView::Finish(Ok(report_of(n))));
    assert(run(v6, w, 4) =~= seq![next_of(v6)]);
    assert(run(v5, w, 5) =~= seq![next_of(v5), next_of(v6)]);
    assert(run(v4, w, 6) =~= seq![next_of(v4), next_of(v5), next_of(v6)]);
    assert(run(v3, w, 7) =~= seq![next_of(v3), next_of(v4), next_of(v5), next_of(v6)]);
    assert(run(v2, w, 8) =~= seq![next_of(v2), next_of(v3), next_of(v4), next_of(v5), next_of(v6)]);
    assert(run(v1, w, 9) =~= seq![next_of(v1), next_of(v2), next_of(v3), next_of(v4), next_of(v5), next_of(v6)]);
    assert(run(v0, w, 10) =~= seq![next_of(v0), next_of(v1), next_of(v2), next_of(v3), next_of(v4), next_of(v5), next_of(v6)]);
}

/// A run with the warn policy on a named target that exists and is not empty
/// warns before naming it, writes both files, and ends in success.
pub proof fn lemma_non_empty_target(args: ArgsView, w: World, seg: Seq<char>)
    requires
        args.name is Some,
        w.exists,
        !w.empty,
        w.segment == Some(seg),
        seg.len() > 0,
    ensures
        ({
            let n = args.name->Some_0;
            let c = config_of(seg, args.mc_version, args.jar, args.port);
            run(initial_of(args, NonEmptyPolicy::Warn), w, 10) == seq![
                ActionView::CheckExists(n),
                ActionView::ListDir { note: None },
                ActionView::NameTarget { note: Some(warning_of(n)) },
                settings_write(c),
                descriptor_write(c),
                ActionView::Finish(Ok(report_of(n))),
            ]
        }),
{
    let v0 = initial_of(args, NonEmptyPolicy::Warn);
    let v1 = record_of(v0, respond(w, next_of(v0)));
    let v2 = record_of(v1, respond(w, next_of(v1)));
    let v3 = record_of(v2, respond(w, next_of(v2)));
    let v4 = record_of(v3, respond(w, next_of(v3)));
    let v5 = record_of(v4, respond(w, next_of(v4)));
    assert(next_of(v5) is Finish);
    assert(run(v5, w, 5) =~= seq![next_of(v5)]);
    assert(run(v4, w, 6) =~= seq![next_of(v4), next_of(v5)]);
    assert(run(v3, w, 7) =~= seq![next_of(v3), next_of(v4), next_of(v5)]);
    assert(run(v2, w, 8) =~= seq![next_of(v2), next_of(v3), next_of(v4), next_of(v5)]);
    assert(run(v1, w, 9) =~= seq![next_of(v1), next_of(v2), next_of(v3), next_of(v4), next_of(v5)]);
    assert(run(v0, w, 10) =~= seq![next_of(v0), next_of(v1), next_of(v2), next_of(v3), next_of(v4), next_of(v5)]);
}

/// A run with the warn policy in a working directory that is not empty warns,
/// names the configuration after the directory's final segment, writes both
/// files, and ends in success.
pub proof fn lemma_non_empty_working_dir(args: ArgsView, w: World, seg: Seq<char>)
    requires
        args.name is None,
        !w.empty,
        w.segment == Some(seg),
        seg.len() > 0,
    ensures
        ({
            let c = config_of(seg, args.mc_version, args.jar, args.port);
            run(initial_of(args, NonEmptyPolicy::Warn), w, 10) == seq![
                ActionView::ResolveCurrentDir,
                ActionView::ListDir { note: None },
                ActionView::NameTarget { note: Some(warning_of(w.cwd)) },
                settings_write(c),
                descriptor_write(c),
                ActionView::Finish(Ok(report_of(w.cwd))),
            ]
        }),
{
    let v0 = initial_of(args, NonEmptyPolicy::Warn);
    let v1 = record_of(v0, respond(w, next_of(v0)));
    let v2 = record_of(v1, respond(w, next_of(v1)));
    let v3 = record_of(v2, respond(w, next_of(v2)));
    let v4 = record_of(v3, respond(w, next_of(v3)));
    let v5 = record_of(v4, respond(w, next_of(v4)));
    assert(next_of(v5) is Finish);
    assert(run(v5, w, 5) =~= seq![next_of(v5)]);
    assert(run(v4, w, 6) =~= seq![next_of(v4), next_of(v5)]);
    assert(run(v3, w, 7) =~= seq![next_of(v3), next_of(v4), next_of(v5)]);
    assert(run(v2, w, 8) =~= seq![next_of(v2), next_of(v3), next_of(v4), next_of(v5)]);
    assert(run(v1, w, 9) =~= seq![next_of(v1), next_of(v2), next_of(v3), next_of(v4), next_of(v5)]);
    assert(run(v0, w, 10) =~= seq![next_of(v0), next_of(v1), next_of(v2), next_of(v3), next_of(v4), next_of(v5)]);
}

/// Provisioning a named target twice with the warn policy: the first run finds
/// no directory, the second finds the one the first filled. Both succeed, and
/// the second writes the same two files with the same contents, which depend
/// on the parameters and the directory's name alone, so nothing of the first
/// run's files carries over.
pub proof fn lemma_second_run_overwrites(args: ArgsView, first: World, second: World, seg: Seq<char>)
    requires
        args.name is Some,
        !first.exists,
        first.empty,
        second.exists,
        !second.empty,
        first.segment == Some(seg),
        second.segment == Some(seg),
        seg.len() > 0,
    ensures
        ({
            let c = config_of(seg, args.mc_version, args.jar, args.port);
            let r1 = run(initial_of(args, NonEmptyPolicy::Warn), first, 10);
            let r2 = run(initial_of(args, NonEmptyPolicy::Warn), second, 10);
            &&& r1.last() is Finish && r1.last()->Finish_0 is Ok
            &&& r2.last() is Finish && r2.last()->Finish_0 is Ok
            &&& r1.subrange(4, 6) == seq![settings_write(c), descriptor_write(c)]
            &&& r2.subrange(3, 5) == r1.subrange(4, 6)
        }),
{
    let c = config_of(seg, args.mc_version, args.jar, args.port);
    lemma_fresh_target(args, NonEmptyPolicy::Warn, first, seg);
    lemma_non_empty_target(args, second, seg);
    let r1 = run(initial_of(args, NonEmptyPolicy::Warn), first, 10);
    let r2 = run(initial_of(args, NonEmptyPolicy::Warn), second, 10);
    assert(r1.subrange(4, 6) =~= seq![settings_write(c), descriptor_write(c)]);
    assert(r2.subrange(3, 5) =~= seq![settings_write(c), descriptor_write(c)]);
}

} // verus!
