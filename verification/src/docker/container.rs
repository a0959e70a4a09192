//! What a container is made with: the limits, the mount, the environment and
//! the name, all derived from the request.

use vstd::prelude::*;
use vstd::utf8::*;
use vstd::string::*;
use crate::docker::types::{ExecutionRequest, ExecutionRequestView};
use crate::text::{copy_list, text_pairs, texts};

verus! {

/// Memory limit where the request names none: 256 MiB.
pub const DEFAULT_MEMORY_LIMIT: i64 = 268_435_456;

/// Length of one CPU accounting period in microseconds: 100 ms.
pub const DEFAULT_CPU_PERIOD: i64 = 100_000;

/// CPU time per period where the request names none: half of one core.
pub const DEFAULT_CPU_QUOTA: i64 = 50_000;

/// Timeout in seconds where the request names none.
pub const DEFAULT_TIMEOUT_SECONDS: u64 = 30;

/// How many bytes of the execution identifier go into the container's name.
pub const NAME_SLICE_BYTES: usize = 8;

/// A directory of the host made visible inside the container.
#[derive(Debug, Clone)]
pub struct BindMount {
    /// Path inside the container.
    pub target: String,
    /// Path on the host.
    pub source: String,
    pub read_only: bool,
}

pub struct BindMountView {
    pub target: Seq<char>,
    pub source: Seq<char>,
    pub read_only: bool,
}

impl View for BindMount {
    type V = BindMountView;

    open spec fn view(&self) -> BindMountView {
        BindMountView { target: self.target@, source: self.source@, read_only: self.read_only }
    }
}

/// Everything the engine is told when it is asked to create a container.
#[derive(Debug, Clone)]
pub struct ContainerSpec {
    pub name: String,
    pub image: String,
    pub command: Vec<String>,
    pub working_dir: String,
    /// One `NAME=value` entry per environment variable.
    pub env: Vec<String>,
    /// Memory limit in bytes.
    pub memory: i64,
    pub cpu_period: i64,
    pub cpu_quota: i64,
    pub network_mode: String,
    pub mount: BindMount,
}

pub struct ContainerSpecView {
    pub name: Seq<char>,
    pub image: Seq<char>,
    pub command: Seq<Seq<char>>,
    pub working_dir: Seq<char>,
    pub env: Seq<Seq<char>>,
    pub memory: i64,
    pub cpu_period: i64,
    pub cpu_quota: i64,
    pub network_mode: Seq<char>,
    pub mount: BindMountView,
}

impl View for ContainerSpec {
    type V = ContainerSpecView;

    open spec fn view(&self) -> ContainerSpecView {
        ContainerSpecView {
            name: self.name@,
            image: self.image@,
            command: texts(self.command@),
            working_dir: self.working_dir@,
            env: texts(self.env@),
            memory: self.memory,
            cpu_period: self.cpu_period,
            cpu_quota: self.cpu_quota,
            network_mode: self.network_mode@,
            mount: self.mount@,
        }
    }
}

/// Whether the first eight bytes of the identifier's UTF-8 form end where a
/// character ends, so that they can be cut off as text.
pub open spec fn has_name_slice(id: Seq<char>) -> bool {
    is_char_boundary(encode_utf8(id), NAME_SLICE_BYTES as int)
}

/// The characters held by the first eight bytes of the identifier.
pub open spec fn name_slice(id: Seq<char>) -> Seq<char> {
    decode_utf8(encode_utf8(id).subrange(0, NAME_SLICE_BYTES as int))
}

/// The name of the container that runs the execution with this identifier.
pub open spec fn container_name_of(id: Seq<char>) -> Seq<char> {
    "shell-exec-"@ + name_slice(id)
}

/// One variable as the engine takes it: the name, `=`, the value.
pub open spec fn env_entry(name: Seq<char>, value: Seq<char>) -> Seq<char> {
    name + "="@ + value
}

/// The entries for a list of variables, in the order of the list.
pub open spec fn env_entries(env: Seq<(Seq<char>, Seq<char>)>) -> Seq<Seq<char>> {
    Seq::new(env.len(), |i: int| env_entry(env[i].0, env[i].1))
}

/// The memory limit that applies to a request.
pub open spec fn effective_memory(limit: Option<i64>) -> i64 {
    match limit {
        Some(bytes) => bytes,
        None => DEFAULT_MEMORY_LIMIT,
    }
}

/// The CPU quota that applies to a request.
pub open spec fn effective_cpu_quota(quota: Option<i64>) -> i64 {
    match quota {
        Some(micros) => micros,
        None => DEFAULT_CPU_QUOTA,
    }
}

/// The timeout in seconds that applies to a request.
pub open spec fn effective_timeout(timeout: Option<u64>) -> u64 {
    match timeout {
        Some(seconds) => seconds,
        None => DEFAULT_TIMEOUT_SECONDS,
    }
}

/// The container that a request asks for. Absent limits are filled in from the
/// defaults, the network is always switched off, and the source directory is
/// always mounted read-only at `/workspace`.
pub open spec fn container_spec_of(request: ExecutionRequestView) -> ContainerSpecView {
    ContainerSpecView {
        name: container_name_of(request.id),
        image: request.image,
        command: request.command,
        working_dir: request.working_dir,
        env: env_entries(request.env),
        memory: effective_memory(request.memory_limit),
        cpu_period: DEFAULT_CPU_PERIOD,
        cpu_quota: effective_cpu_quota(request.cpu_quota),
        network_mode: "none"@,
        mount: BindMountView {
            target: "/workspace"@,
            source: request.source_path,
            read_only: true,
        },
    }
}

/// The name of the container for an execution: a fixed prefix and the first
/// eight bytes of the identifier.
pub fn container_name(id: &str) -> (name: String)
    requires
        has_name_slice(id@),
    ensures
        name@ == container_name_of(id@),
{
    let (head, _) = id.split_at(NAME_SLICE_BYTES);
    proof {
        encode_utf8_decode_utf8(head@);
        assert(encode_utf8(head@) == encode_utf8(id@).subrange(0, NAME_SLICE_BYTES as int));
    }
    let mut name = "shell-exec-".to_owned();
    name.append(head);
    name
}

/// The environment as the engine takes it: one `NAME=value` entry per
/// variable, in the order of the request.
pub fn environment(env: &Vec<(String, String)>) -> (entries: Vec<String>)
    ensures
        texts(entries@) == env_entries(text_pairs(env@)),
{
    let mut entries: Vec<String> = Vec::new();
    let mut i: usize = 0;
    while i < env.len()
        invariant
            i <= env.len(),
            entries.len() == i,
            forall|k: int| 0 <= k < i ==> entries[k]@ == env_entry(env[k].0@, env[k].1@),
        decreases env.len() - i,
    {
        let mut entry = env[i].0.clone();
        entry.append("=");
        entry.append(env[i].1.as_str());
        entries.push(entry);
        i += 1;
    }
    assert(texts(entries@) =~= env_entries(text_pairs(env@)));
    entries
}

/// The timeout in seconds that applies to a request.
pub fn timeout_seconds(request: &ExecutionRequest) -> (seconds: u64)
    ensures
        seconds == effective_timeout(request.timeout),
{
    match request.timeout {
        Some(seconds) => seconds,
        None => DEFAULT_TIMEOUT_SECONDS,
    }
}

/// Builds the container for a request under a name that is already known.
pub fn container_named(request: &ExecutionRequest, name: &str) -> (spec: ContainerSpec)
    ensures
        spec@ == (ContainerSpecView { name: name@, ..container_spec_of(request@) }),
{
    let memory: i64 = match request.memory_limit {
        Some(bytes) => bytes,
        None => DEFAULT_MEMORY_LIMIT,
    };
    let cpu_quota: i64 = match request.cpu_quota {
        Some(micros) => micros,
        None => DEFAULT_CPU_QUOTA,
    };
    ContainerSpec {
        name: name.to_owned(),
        image: request.image.clone(),
        command: copy_list(&request.command),
        working_dir: request.working_dir.clone(),
        env: environment(&request.env),
        memory,
        cpu_period: DEFAULT_CPU_PERIOD,
        cpu_quota,
        network_mode: "none".to_owned(),
        mount: BindMount {
            target: "/workspace".to_owned(),
            source: request.source_path.clone(),
            read_only: true,
        },
    }
}

/// Builds the container for a request.
pub fn container_spec(request: &ExecutionRequest) -> (spec: ContainerSpec)
    requires
        has_name_slice(request.id@),
    ensures
        spec@ == container_spec_of(request@),
{
    let name = container_name(request.id.as_str());
    container_named(request, name.as_str())
}

/// An identifier made of ASCII characters alone, and of at least eight of
/// them, has a name slice: its first eight characters.
pub proof fn ascii_name_slice(id: Seq<char>)
    requires
        is_ascii_chars(id),
        id.len() >= NAME_SLICE_BYTES,
    ensures
        has_name_slice(id),
        name_slice(id) == id.subrange(0, NAME_SLICE_BYTES as int),
{
    let bytes = encode_utf8(id);
    let head = id.subrange(0, NAME_SLICE_BYTES as int);
    is_ascii_chars_encode_utf8(id);
    encode_utf8_valid_utf8(id);
    if bytes.len() == NAME_SLICE_BYTES {
        is_char_boundary_start_end_of_seq(bytes);
    } else {
        let b = bytes[NAME_SLICE_BYTES as int];
        assert(id[NAME_SLICE_BYTES as int] as u8 == b);
        assert(b < 128);
        assert(!is_continuation_byte(b)) by (bit_vector)
            requires
                b < 128,
        ;
        is_char_boundary_iff_not_is_continuation_byte(bytes, NAME_SLICE_BYTES as int);
    }
    assert(is_ascii_chars(head));
    is_ascii_chars_encode_utf8(head);
    assert(encode_utf8(head) =~= bytes.subrange(0, NAME_SLICE_BYTES as int));
    encode_utf8_decode_utf8(head);
}

} // verus!
