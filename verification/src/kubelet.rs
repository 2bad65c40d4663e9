//! Starting a container of a pod: which paths of the host its volumes map
//! to, and what becomes of the container when a step of the start fails.

use crate::text::str_eq;
use vstd::prelude::*;
use vstd::string::StringExecFns;

verus! {

/// One volume that a container mounts.
#[derive(Debug)]
pub struct VolumeMount {
    /// The name of the volume.
    pub name: String,
    /// The path under which the container sees the volume, with the
    /// sub-path of the mount, if it has one, added.
    pub guest_path: String,
}

/// A volume of a pod.
#[derive(Debug)]
pub enum VolumeRef {
    /// A volume that a device plugin asks for: where it lies on the host
    /// once it is mounted, and where the container sees it.
    DeviceVolume { host_path: Option<String>, guest_path: String },
    /// Any other volume: where it lies on the host once it is mounted.
    Other { host_path: Option<String> },
}

/// Why the volumes of a container could not be mapped.
#[derive(Debug, PartialEq, Eq)]
pub enum VolumeError {
    /// The volume of this name has no path on the host yet.
    NotMounted { volume: String },
    /// A volume that the container does not mount by name is no device
    /// volume; the path is where it lies on the host.
    NotDeviceVolume { host_path: Option<String> },
    /// The container mounts a volume of this name, and the pod has none.
    NotFound { volume: String, container: String },
}

/// The text that std's `Debug` writes for a path that may be missing.
pub uninterp spec fn debug_of_path(host_path: Option<Seq<char>>) -> Seq<char>;

/// `format!` with `{:?}` of an `Option<&Path>`: the text that std's `Debug`
/// writes for the path, or for the missing path.
#[verifier::external_body]
fn debug_path(host_path: &Option<String>) -> (text: String)
    ensures
        text@ == debug_of_path(
            match host_path {
                Some(path) => Some(path@),
                None => None,
            },
        ),
{
    format!("{:?}", host_path.as_ref().map(std::path::Path::new))
}

impl VolumeError {
    /// What is said of the error.
    pub open spec fn message_text(&self) -> Seq<char> {
        match self {
            VolumeError::NotMounted { volume } => "Volume "@ + volume@
                + " has not been mounted yet"@,
            VolumeError::NotDeviceVolume { host_path } => "Volume mounted at path "@
                + debug_of_path(
                match host_path {
                    Some(path) => Some(path@),
                    None => None,
                },
            ) + " was not a DeviceVolume"@,
            VolumeError::NotFound { volume, container } => "no volume with the name of "@
                + volume@ + " found for container "@ + container@,
        }
    }

    /// What is said of the error.
    pub fn message(&self) -> (text: String)
        ensures
            text@ == self.message_text(),
    {
        match self {
            VolumeError::NotMounted { volume } => {
                let mut text = "Volume ".to_owned();
                text.append(volume.as_str());
                text.append(" has not been mounted yet");
                text
            },
            VolumeError::NotDeviceVolume { host_path } => {
                let mut text = "Volume mounted at path ".to_owned();
                text.append(debug_path(host_path).as_str());
                text.append(" was not a DeviceVolume");
                text
            },
            VolumeError::NotFound { volume, container } => {
                let mut text = "no volume with the name of ".to_owned();
                text.append(volume.as_str());
                text.append(" found for container ");
                text.append(container.as_str());
                assert(text@ =~= self.message_text());
                text
            },
        }
    }
}

/// One path of the host with the path under which the container sees it.
#[derive(Debug, PartialEq, Eq)]
pub struct PathMapping {
    pub host_path: String,
    pub guest_path: Option<String>,
}

/// Where a volume lies on the host, if it is mounted.
pub open spec fn host_path_of(volume: VolumeRef) -> Option<String> {
    match volume {
        VolumeRef::DeviceVolume { host_path, guest_path } => host_path,
        VolumeRef::Other { host_path } => host_path,
    }
}

/// Whether one of `mounts` has the name `name`.
pub open spec fn mounts_name(mounts: Seq<VolumeMount>, name: Seq<char>) -> bool {
    exists|i: int| 0 <= i < mounts.len() && (#[trigger] mounts[i]).name@ == name
}

/// The index of the first of `volumes` with the name `name`; the number of
/// volumes where there is none.
pub open spec fn volume_index(volumes: Seq<(String, VolumeRef)>, name: Seq<char>) -> int
    decreases volumes.len(),
{
    if volumes.len() == 0 {
        0
    } else if volumes[0].0@ == name {
        0
    } else {
        1 + volume_index(volumes.drop_first(), name)
    }
}

/// Where the volume that `mount` names lies on the host; none where the pod
/// has no volume of that name or the volume is not mounted.
pub open spec fn mount_host(volumes: Seq<(String, VolumeRef)>, mount: VolumeMount) -> Option<
    Seq<char>,
> {
    let at = volume_index(volumes, mount.name@);
    if at >= volumes.len() {
        None
    } else {
        match host_path_of(volumes[at].1) {
            Some(host) => Some(host@),
            None => None,
        }
    }
}

/// The guest path that a list of pairs gives for the host path `host`: of
/// two pairs with the same host path the later one counts, as in the map
/// that is filled with the pairs in their order.
pub open spec fn guest_of(pairs: Seq<(Seq<char>, Seq<char>)>, host: Seq<char>) -> Option<
    Seq<char>,
>
    decreases pairs.len(),
{
    if pairs.len() == 0 {
        None
    } else if pairs.last().0 == host {
        Some(pairs.last().1)
    } else {
        guest_of(pairs.drop_last(), host)
    }
}

/// A result of mapping as mathematical values: the pairs of host path and
/// guest path, or the error.
pub enum MappingView {
    Mapped(Seq<(Seq<char>, Seq<char>)>),
    NotMounted(Seq<char>),
    NotDeviceVolume(Option<Seq<char>>),
    NotFound(Seq<char>, Seq<char>),
}

/// What the volume `volume` of the name `name` adds to the mappings
/// `before`, where the container mounts no volume of that name: a device
/// volume that is mounted adds its two paths; anything else is an error.
pub open spec fn with_resource_volume(
    before: MappingView,
    name: Seq<char>,
    volume: VolumeRef,
) -> MappingView {
    match before {
        MappingView::Mapped(pairs) => match volume {
            VolumeRef::DeviceVolume { host_path, guest_path } => match host_path {
                Some(host) => MappingView::Mapped(pairs.push((host@, guest_path@))),
                None => MappingView::NotMounted(name),
            },
            VolumeRef::Other { host_path } => MappingView::NotDeviceVolume(
                match host_path {
                    Some(host) => Some(host@),
                    None => None,
                },
            ),
        },
        _ => before,
    }
}

/// The mappings of the volumes among `volumes` that the container does not
/// mount by name, in the order of the volumes; the first error where one of
/// them cannot be mapped.
pub open spec fn resource_mappings(
    volumes: Seq<(String, VolumeRef)>,
    mounts: Seq<VolumeMount>,
) -> MappingView
    decreases volumes.len(),
{
    if volumes.len() == 0 {
        MappingView::Mapped(Seq::empty())
    } else {
        let before = resource_mappings(volumes.drop_last(), mounts);
        if mounts_name(mounts, volumes.last().0@) {
            before
        } else {
            with_resource_volume(before, volumes.last().0@, volumes.last().1)
        }
    }
}

/// What the mount `mount` adds to the mappings `before`: the path of its
/// volume on the host with the path of the mount; an error where the pod has
/// no volume of its name or the volume is not mounted.
pub open spec fn with_mount(
    before: MappingView,
    mount: VolumeMount,
    volumes: Seq<(String, VolumeRef)>,
    container: Seq<char>,
) -> MappingView {
    match before {
        MappingView::Mapped(pairs) => {
            let at = volume_index(volumes, mount.name@);
            if at >= volumes.len() {
                MappingView::NotFound(mount.name@, container)
            } else {
                match host_path_of(volumes[at].1) {
                    Some(host) => MappingView::Mapped(pairs.push((host@, mount.guest_path@))),
                    None => MappingView::NotMounted(mount.name@),
                }
            }
        },
        _ => before,
    }
}

/// The mappings `before` with those of the first `count` of `mounts` added,
/// in the order of the mounts; the first error where one cannot be mapped.
pub open spec fn mount_mappings(
    before: MappingView,
    mounts: Seq<VolumeMount>,
    count: nat,
    volumes: Seq<(String, VolumeRef)>,
    container: Seq<char>,
) -> MappingView
    decreases count,
{
    if count == 0 {
        before
    } else {
        with_mount(
            mount_mappings(before, mounts, (count - 1) as nat, volumes, container),
            mounts[count - 1],
            volumes,
            container,
        )
    }
}

/// The view of a result of mapping.
pub open spec fn mapping_view(r: Result<Vec<PathMapping>, VolumeError>) -> MappingView {
    match r {
        Ok(mappings) => MappingView::Mapped(pair_views(mappings@)),
        Err(VolumeError::NotMounted { volume }) => MappingView::NotMounted(volume@),
        Err(VolumeError::NotDeviceVolume { host_path }) => MappingView::NotDeviceVolume(
            match host_path {
                Some(host) => Some(host@),
                None => None,
            },
        ),
        Err(VolumeError::NotFound { volume, container }) => MappingView::NotFound(
            volume@,
            container@,
        ),
    }
}

/// The views of a list of mappings. A mapping without a guest path has none
/// in this library: each mapping made here has one.
pub open spec fn pair_views(mappings: Seq<PathMapping>) -> Seq<(Seq<char>, Seq<char>)> {
    mappings.map_values(
        |m: PathMapping|
            (
                m.host_path@,
                match m.guest_path {
                    Some(guest) => guest@,
                    None => Seq::empty(),
                },
            ),
    )
}

/// Whether one of `mounts` has the name `name`.
fn is_mounted(mounts: &Vec<VolumeMount>, name: &str) -> (b: bool)
    ensures
        b == mounts_name(mounts@, name@),
{
    let mut i: usize = 0;
    while i < mounts.len()
        invariant
            i <= mounts@.len(),
            forall|k: int| 0 <= k < i ==> (#[trigger] mounts@[k]).name@ != name@,
        decreases mounts@.len() - i,
    {
        if str_eq(mounts[i].name.as_str(), name) {
            return true;
        }
        i += 1;
    }
    false
}

/// The index of the first of `volumes` with the name `name`.
fn find_volume(volumes: &Vec<(String, VolumeRef)>, name: &str) -> (at: usize)
    ensures
        at == volume_index(volumes@, name@),
        at <= volumes@.len(),
{
    let mut i: usize = 0;
    assert(volumes@.subrange(0, volumes@.len() as int) =~= volumes@);
    while i < volumes.len()
        invariant
            i <= volumes@.len(),
            volume_index(volumes@, name@) == i + volume_index(
                volumes@.subrange(i as int, volumes@.len() as int),
                name@,
            ),
        decreases volumes@.len() - i,
    {
        let ghost rest = volumes@.subrange(i as int, volumes@.len() as int);
        assert(rest[0] == volumes@[i as int]);
        assert(rest.drop_first() =~= volumes@.subrange(i + 1, volumes@.len() as int));
        if str_eq(volumes[i].0.as_str(), name) {
            return i;
        }
        i += 1;
    }
    i
}

/// The paths of the host that the volumes of the container `container`
/// map to, each with the path under which the container sees it.
///
/// A container that mounts nothing has no mappings. Else the volumes of the
/// pod that the container does not mount by name come first: they are the
/// volumes that device plugins ask for, and each must be a device volume
/// that is mounted. The volumes that the container mounts follow, in the
/// order of the mounts. The first volume that cannot be mapped is the
/// error.
pub fn volume_path_map(
    container: &str,
    volume_mounts: Option<&Vec<VolumeMount>>,
    volumes: &Vec<(String, VolumeRef)>,
) -> (r: Result<Vec<PathMapping>, VolumeError>)
    ensures
        r matches Ok(mappings) ==> forall|i: int|
            0 <= i < mappings@.len() ==> (#[trigger] mappings@[i]).guest_path is Some,
        mapping_view(r) == match volume_mounts {
            Some(mounts) => mount_mappings(
                resource_mappings(volumes@, mounts@),
                mounts@,
                mounts@.len(),
                volumes@,
                container@,
            ),
            None => MappingView::Mapped(Seq::empty()),
        },
{
    let mounts = match volume_mounts {
        Some(mounts) => mounts,
        None => {
            let none: Vec<PathMapping> = Vec::new();
            assert(pair_views(none@) =~= Seq::empty());
            return Ok(none);
        },
    };
    let mut mappings: Vec<PathMapping> = Vec::new();
    let mut i: usize = 0;
    assert(volumes@.subrange(0, 0) =~= Seq::<(String, VolumeRef)>::empty());
    assert(pair_views(mappings@) =~= Seq::empty());
    while i < volumes.len()
        invariant
            i <= volumes@.len(),
            volume_mounts == Some(mounts),
            forall|n: int| 0 <= n < mappings@.len() ==> (#[trigger] mappings@[n]).guest_path is Some,
            MappingView::Mapped(pair_views(mappings@)) == resource_mappings(
                volumes@.subrange(0, i as int),
                mounts@,
            ),
        decreases volumes@.len() - i,
    {
        assert(volumes@.subrange(0, i + 1).drop_last() =~= volumes@.subrange(0, i as int));
        assert(volumes@.subrange(0, i + 1).last() == volumes@[i as int]);
        if !is_mounted(mounts, volumes[i].0.as_str()) {
            match &volumes[i].1 {
                VolumeRef::DeviceVolume { host_path: Some(host), guest_path } => {
                    let ghost before = pair_views(mappings@);
                    mappings.push(
                        PathMapping { host_path: host.clone(), guest_path: Some(guest_path.clone()) },
                    );
                    assert(pair_views(mappings@) =~= before.push((host@, guest_path@)));
                },
                VolumeRef::DeviceVolume { host_path: None, guest_path } => {
                    proof {
                        assert(resource_mappings(volumes@.subrange(0, i + 1), mounts@)
                            == MappingView::NotMounted(volumes@[i as int].0@));
                        lemma_resource_error_stays(volumes@, mounts@, i + 1);
                        lemma_mount_error_stays(
                            resource_mappings(volumes@, mounts@),
                            mounts@,
                            0,
                            mounts@.len(),
                            volumes@,
                            container@,
                        );
                    }
                    return Err(VolumeError::NotMounted { volume: volumes[i].0.clone() });
                },
                VolumeRef::Other { host_path } => {
                    let host_path = match host_path {
                        Some(host) => Some(host.clone()),
                        None => None,
                    };
                    proof {
                        assert(resource_mappings(volumes@.subrange(0, i + 1), mounts@)
                            == MappingView::NotDeviceVolume(
                            match host_path {
                                Some(host) => Some(host@),
                                None => None,
                            },
                        ));
                        lemma_resource_error_stays(volumes@, mounts@, i + 1);
                        lemma_mount_error_stays(
                            resource_mappings(volumes@, mounts@),
                            mounts@,
                            0,
                            mounts@.len(),
                            volumes@,
                            container@,
                        );
                    }
                    return Err(VolumeError::NotDeviceVolume { host_path });
                },
            }
        }
        i += 1;
    }
    assert(volumes@.subrange(0, i as int) =~= volumes@);
    let ghost resources = resource_mappings(volumes@, mounts@);
    let mut k: usize = 0;
    while k < mounts.len()
        invariant
            k <= mounts@.len(),
            volume_mounts == Some(mounts),
            forall|n: int| 0 <= n < mappings@.len() ==> (#[trigger] mappings@[n]).guest_path is Some,
            resources == resource_mappings(volumes@, mounts@),
            MappingView::Mapped(pair_views(mappings@)) == mount_mappings(
                resources,
                mounts@,
                k as nat,
                volumes@,
                container@,
            ),
        decreases mounts@.len() - k,
    {
        let mount = &mounts[k];
        let at = find_volume(volumes, mount.name.as_str());
        if at >= volumes.len() {
            proof {
                assert(mount_mappings(resources, mounts@, (k + 1) as nat, volumes@, container@)
                    == MappingView::NotFound(mount.name@, container@));
                lemma_mount_error_stays(
                    resources,
                    mounts@,
                    (k + 1) as nat,
                    mounts@.len(),
                    volumes@,
                    container@,
                );
            }
            return Err(
                VolumeError::NotFound { volume: mount.name.clone(), container: container.to_owned() },
            );
        }
        let host = match &volumes[at].1 {
            VolumeRef::DeviceVolume { host_path, guest_path } => host_path,
            VolumeRef::Other { host_path } => host_path,
        };
        match host {
            Some(host) => {
                let ghost before = pair_views(mappings@);
                mappings.push(
                    PathMapping {
                        host_path: host.clone(),
                        guest_path: Some(mount.guest_path.clone()),
                    },
                );
                assert(pair_views(mappings@) =~= before.push((host@, mount.guest_path@)));
            },
            None => {
                proof {
                    assert(mount_mappings(resources, mounts@, (k + 1) as nat, volumes@, container@)
                        == MappingView::NotMounted(mount.name@));
                    lemma_mount_error_stays(
                        resources,
                        mounts@,
                        (k + 1) as nat,
                        mounts@.len(),
                        volumes@,
                        container@,
                    );
                }
                return Err(VolumeError::NotMounted { volume: mount.name.clone() });
            },
        }
        k += 1;
    }
    Ok(mappings)
}

/// The mapping that counts for the host path `host_path` among `mappings`:
/// the last one with that host path; none where no mapping has it.
pub fn mapping_for<'a>(mappings: &'a Vec<PathMapping>, host_path: &str) -> (found: Option<
    &'a PathMapping,
>)
    ensures
        found is Some <==> guest_of(pair_views(mappings@), host_path@) is Some,
        found matches Some(mapping) ==> mapping.host_path@ == host_path@ && guest_of(
            pair_views(mappings@),
            host_path@,
        ) == Some(
            match mapping.guest_path {
                Some(guest) => guest@,
                None => Seq::empty(),
            },
        ),
{
    let mut i: usize = mappings.len();
    assert(pair_views(mappings@).subrange(0, i as int) =~= pair_views(mappings@));
    while i > 0
        invariant
            i <= mappings@.len(),
            guest_of(pair_views(mappings@), host_path@) == guest_of(
                pair_views(mappings@).subrange(0, i as int),
                host_path@,
            ),
        decreases i,
    {
        let ghost prefix = pair_views(mappings@).subrange(0, i as int);
        assert(prefix.drop_last() =~= pair_views(mappings@).subrange(0, i - 1));
        assert(prefix.last() == pair_views(mappings@)[i - 1]);
        i -= 1;
        if str_eq(mappings[i].host_path.as_str(), host_path) {
            return Some(&mappings[i]);
        }
    }
    None
}

/// The path of a mount counts for its host path: where the volumes of a
/// container are mapped, the guest path given for the host path of a mount
/// is the path of that mount, unless a later mount has the same host path. A
/// device volume that lies at the host path of a mount never counts.
pub proof fn lemma_mount_wins(
    volumes: Seq<(String, VolumeRef)>,
    mounts: Seq<VolumeMount>,
    container: Seq<char>,
    k: int,
)
    requires
        0 <= k < mounts.len(),
        mount_mappings(
            resource_mappings(volumes, mounts),
            mounts,
            mounts.len(),
            volumes,
            container,
        ) is Mapped,
        forall|j: int|
            k < j < mounts.len() ==> mount_host(volumes, #[trigger] mounts[j]) != mount_host(
                volumes,
                mounts[k],
            ),
    ensures
        mount_host(volumes, mounts[k]) is Some,
        guest_of(
            mount_mappings(
                resource_mappings(volumes, mounts),
                mounts,
                mounts.len(),
                volumes,
                container,
            )->Mapped_0,
            mount_host(volumes, mounts[k])->0,
        ) == Some(mounts[k].guest_path@),
{
    lemma_mount_counts(
        resource_mappings(volumes, mounts),
        mounts,
        mounts.len(),
        volumes,
        container,
        k,
    );
}

/// The same for the first `count` mounts, by induction on `count`.
proof fn lemma_mount_counts(
    before: MappingView,
    mounts: Seq<VolumeMount>,
    count: nat,
    volumes: Seq<(String, VolumeRef)>,
    container: Seq<char>,
    k: int,
)
    requires
        0 <= k < count <= mounts.len(),
        mount_mappings(before, mounts, count, volumes, container) is Mapped,
        forall|j: int|
            k < j < count ==> mount_host(volumes, #[trigger] mounts[j]) != mount_host(
                volumes,
                mounts[k],
            ),
    ensures
        mount_host(volumes, mounts[k]) is Some,
        guest_of(
            mount_mappings(before, mounts, count, volumes, container)->Mapped_0,
            mount_host(volumes, mounts[k])->0,
        ) == Some(mounts[k].guest_path@),
    decreases count,
{
    let earlier = mount_mappings(before, mounts, (count - 1) as nat, volumes, container);
    let now = mount_mappings(before, mounts, count, volumes, container);
    let last = mounts[count - 1];
    assert(now == with_mount(earlier, last, volumes, container));
    assert(earlier is Mapped);
    assert(mount_host(volumes, last) is Some);
    let pair = (mount_host(volumes, last)->0, last.guest_path@);
    assert(now->Mapped_0 == earlier->Mapped_0.push(pair));
    assert(now->Mapped_0.drop_last() =~= earlier->Mapped_0);
    if k < count - 1 {
        lemma_mount_counts(before, mounts, (count - 1) as nat, volumes, container, k);
        assert(mount_host(volumes, mounts[count - 1]) != mount_host(volumes, mounts[k]));
    }
}

/// Once a volume cannot be mapped, the volumes behind it change nothing.
proof fn lemma_resource_error_stays(
    volumes: Seq<(String, VolumeRef)>,
    mounts: Seq<VolumeMount>,
    upto: int,
)
    requires
        0 <= upto <= volumes.len(),
        !(resource_mappings(volumes.subrange(0, upto), mounts) is Mapped),
    ensures
        resource_mappings(volumes, mounts) == resource_mappings(volumes.subrange(0, upto), mounts),
    decreases volumes.len() - upto,
{
    if upto < volumes.len() {
        assert(volumes.subrange(0, upto + 1).drop_last() =~= volumes.subrange(0, upto));
        lemma_resource_error_stays(volumes, mounts, upto + 1);
    } else {
        assert(volumes.subrange(0, upto) =~= volumes);
    }
}

/// Once a mount cannot be mapped, the mounts behind it change nothing.
proof fn lemma_mount_error_stays(
    before: MappingView,
    mounts: Seq<VolumeMount>,
    upto: nat,
    count: nat,
    volumes: Seq<(String, VolumeRef)>,
    container: Seq<char>,
)
    requires
        upto <= count,
        !(mount_mappings(before, mounts, upto, volumes, container) is Mapped),
    ensures
        mount_mappings(before, mounts, count, volumes, container) == mount_mappings(
            before,
            mounts,
            upto,
            volumes,
            container,
        ),
    decreases count,
{
    if upto < count {
        lemma_mount_error_stays(before, mounts, upto, (count - 1) as nat, volumes, container);
    }
}

/// How the start of a container went on.
#[derive(Debug, PartialEq, Eq)]
pub enum StartEvent {
    /// The run context holds no module for the container.
    ModuleDataMissing,
    /// The volumes of the container could not be mapped; the text says why.
    VolumeMapFailed { error: String },
    /// The runtime could not be constructed; the text says why.
    RuntimeFailed { error: String },
    /// The runtime could not be started; the text says why.
    StartFailed { error: String },
    /// The runtime runs.
    Started,
}

/// The state that a container goes to from `Waiting`.
#[derive(Debug, PartialEq, Eq)]
pub enum Transition {
    /// The container runs.
    Running,
    /// The container has ended, with a message; `failed` says whether it
    /// ended in failure.
    Terminated { message: String, failed: bool },
}

/// What is said of a container of the pod `pod` that could not be started:
/// `Pod <pod> container <container> ` and what went wrong.
pub open spec fn failure_message(pod: Seq<char>, container: Seq<char>, event: StartEvent) -> Seq<
    char,
> {
    "Pod "@ + pod + " container "@ + container + match event {
        StartEvent::ModuleDataMissing => " failed load module data from run context."@,
        StartEvent::VolumeMapFailed { error } => " failed to map volume paths: "@ + error@,
        StartEvent::RuntimeFailed { error } => " failed to construct runtime: "@ + error@,
        StartEvent::StartFailed { error } => " failed to start: "@ + error@,
        StartEvent::Started => Seq::empty(),
    }
}

/// The state of a container that is starting.
#[derive(Clone, Copy, Debug, Default, PartialEq, Eq)]
pub struct Waiting;

impl Waiting {
    /// The state that the container goes to when its start went on with
    /// `event`: it runs where the runtime was started, and has ended in
    /// failure, with a message that names the step that failed, in every
    /// other case.
    pub fn next(&self, pod: &str, container: &str, event: StartEvent) -> (transition: Transition)
        ensures
            match event {
                StartEvent::Started => transition is Running,
                _ => transition matches Transition::Terminated { message, failed } && failed
                    && message@ == failure_message(pod@, container@, event),
            },
    {
        let mut message = "Pod ".to_owned();
        message.append(pod);
        message.append(" container ");
        message.append(container);
        match &event {
            StartEvent::Started => {
                return Transition::Running;
            },
            StartEvent::ModuleDataMissing => {
                message.append(" failed load module data from run context.");
            },
            StartEvent::VolumeMapFailed { error } => {
                message.append(" failed to map volume paths: ");
                message.append(error.as_str());
            },
            StartEvent::RuntimeFailed { error } => {
                message.append(" failed to construct runtime: ");
                message.append(error.as_str());
            },
            StartEvent::StartFailed { error } => {
                message.append(" failed to start: ");
                message.append(error.as_str());
            },
        }
        assert(message@ =~= failure_message(pod@, container@, event));
        Transition::Terminated { message, failed: true }
    }

    /// What is reported of a container in this state.
    pub fn status(&self) -> (reason: String)
        ensures
            reason@ == "Module is starting."@,
    {
        "Module is starting.".to_owned()
    }
}

} // verus!
