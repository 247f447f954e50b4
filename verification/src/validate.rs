use crate::config::{
    BufferConfig, EffectConfig, NamedChannel, NamedResource, PassConfig, ResourceConfig,
};
use crate::equality::{
    copy_passes, copy_resources, passes_equal, resources_equal, same_passes, same_resources,
};
use vstd::prelude::*;

verus! {

/// What validation can find wrong with a configuration. Each finding names the
/// offending pass, channel or resource by its position in the configuration.
#[derive(Debug, PartialEq, Eq, Structural, Clone, Copy)]
pub enum ConfigIssue {
    /// Pass `pass` renders into a buffer that no resource declares.
    BufferNotFound { pass: usize },
    /// Channel `channel` of pass `pass` samples a resource that does not exist.
    ResourceNotFound { pass: usize, channel: usize },
    /// Channel `channel` of pass `pass` samples a scalar or vector uniform.
    UniformAsSampler { pass: usize, channel: usize },
    /// Buffer resource `resource` has an explicit width or height of zero.
    ZeroSizedBuffer { resource: usize },
    /// Buffer resource `resource` has no attachment.
    ZeroAttachments { resource: usize },
    /// Resource `resource` has the name of an earlier resource.
    DuplicateName { resource: usize },
}

impl ResourceConfig {
    /// Scalar and vector uniforms are set by name and cannot be sampled.
    pub open spec fn is_uniform(self) -> bool {
        match self {
            ResourceConfig::UniformFloat(_) | ResourceConfig::UniformVec2(_)
            | ResourceConfig::UniformVec3(_) | ResourceConfig::UniformVec4(_) => true,
            _ => false,
        }
    }

    pub fn uniform(&self) -> (r: bool)
        ensures
            r == self.is_uniform(),
    {
        match self {
            ResourceConfig::UniformFloat(_) | ResourceConfig::UniformVec2(_)
            | ResourceConfig::UniformVec3(_) | ResourceConfig::UniformVec4(_) => true,
            _ => false,
        }
    }
}

/// Some entry among the first `n` resources has the name `name`.
pub open spec fn named_before(resources: Seq<NamedResource>, name: Seq<char>, n: int) -> bool {
    exists|i: int| 0 <= i < n && i < resources.len() && (#[trigger] resources[i]).name@ == name
}

/// Some resource has the name `name`.
pub open spec fn has_resource(resources: Seq<NamedResource>, name: Seq<char>) -> bool {
    named_before(resources, name, resources.len() as int)
}

/// `i` is the position of the first resource with the name `name`.
pub open spec fn first_named(resources: Seq<NamedResource>, name: Seq<char>, i: int) -> bool {
    &&& 0 <= i < resources.len()
    &&& resources[i].name@ == name
    &&& !named_before(resources, name, i)
}

/// There is only one first resource of a name.
pub proof fn lemma_first_named_is_choice(resources: Seq<NamedResource>, name: Seq<char>, i: int)
    requires
        first_named(resources, name, i),
    ensures
        has_resource(resources, name),
        (choose|k: int| first_named(resources, name, k)) == i,
{
    let k = choose|k: int| first_named(resources, name, k);
    if k < i {
        assert(named_before(resources, name, i));
    } else if i < k {
        assert(named_before(resources, name, k));
    }
}

/// Finds the first resource with the given name.
pub fn find_resource(resources: &Vec<NamedResource>, name: &String) -> (found: Option<usize>)
    ensures
        match found {
            Some(i) => first_named(resources@, name@, i as int),
            None => !has_resource(resources@, name@),
        },
{
    let mut i: usize = 0;
    while i < resources.len()
        invariant
            i <= resources.len(),
            !named_before(resources@, name@, i as int),
        decreases resources.len() - i,
    {
        if resources[i].name == *name {
            return Some(i);
        }
        i = i + 1;
    }
    None
}

/// What is wrong with the target buffer of pass `p`, if anything.
pub open spec fn buffer_issue(pass: PassConfig, p: usize, resources: Seq<NamedResource>) -> Option<
    ConfigIssue,
> {
    match pass.buffer {
        Some(name) => if has_resource(resources, name@) {
            None
        } else {
            Some(ConfigIssue::BufferNotFound { pass: p })
        },
        None => None,
    }
}

/// The findings on the target buffers of the first `n` passes, in pass order.
pub open spec fn buffer_issues(
    passes: Seq<PassConfig>,
    resources: Seq<NamedResource>,
    n: int,
) -> Seq<ConfigIssue>
    decreases n,
{
    if n <= 0 {
        Seq::empty()
    } else {
        let before = buffer_issues(passes, resources, n - 1);
        match buffer_issue(passes[n - 1], (n - 1) as usize, resources) {
            Some(issue) => before.push(issue),
            None => before,
        }
    }
}

/// What is wrong with channel `c` of pass `p`, if anything: its resource is
/// missing, or is a uniform.
pub open spec fn channel_issue(
    channel: NamedChannel,
    p: usize,
    c: usize,
    resources: Seq<NamedResource>,
) -> Option<ConfigIssue> {
    let name = channel.channel.name();
    if !has_resource(resources, name) {
        Some(ConfigIssue::ResourceNotFound { pass: p, channel: c })
    } else {
        let i = choose|i: int| first_named(resources, name, i);
        if resources[i].config.is_uniform() {
            Some(ConfigIssue::UniformAsSampler { pass: p, channel: c })
        } else {
            None
        }
    }
}

/// The findings on the first `m` channels of pass `p`, in channel order.
pub open spec fn pass_channel_issues(
    channels: Seq<NamedChannel>,
    p: usize,
    resources: Seq<NamedResource>,
    m: int,
) -> Seq<ConfigIssue>
    decreases m,
{
    if m <= 0 {
        Seq::empty()
    } else {
        let before = pass_channel_issues(channels, p, resources, m - 1);
        match channel_issue(channels[m - 1], p, (m - 1) as usize, resources) {
            Some(issue) => before.push(issue),
            None => before,
        }
    }
}

/// The findings on the channels of the first `n` passes, in pass order.
pub open spec fn channel_issues(
    passes: Seq<PassConfig>,
    resources: Seq<NamedResource>,
    n: int,
) -> Seq<ConfigIssue>
    decreases n,
{
    if n <= 0 {
        Seq::empty()
    } else {
        let channels = passes[n - 1].uniform_to_channel@;
        channel_issues(passes, resources, n - 1) + pass_channel_issues(
            channels,
            (n - 1) as usize,
            resources,
            channels.len() as int,
        )
    }
}

impl BufferConfig {
    /// An explicit width or height of zero.
    pub open spec fn zero_sized(self) -> bool {
        self.width == Some(0u32) || self.height == Some(0u32)
    }
}

/// The findings on resource `r` alone: a repeated name, and for a buffer a zero
/// size or no attachment, in this order.
pub open spec fn resource_issues_at(resources: Seq<NamedResource>, r: int) -> Seq<ConfigIssue> {
    let duplicate = if named_before(resources, resources[r].name@, r) {
        seq![ConfigIssue::DuplicateName { resource: r as usize }]
    } else {
        Seq::empty()
    };
    match resources[r].config {
        ResourceConfig::Buffer(buffer) => {
            let sized = if buffer.zero_sized() {
                duplicate.push(ConfigIssue::ZeroSizedBuffer { resource: r as usize })
            } else {
                duplicate
            };
            if buffer.attachments == 0 {
                sized.push(ConfigIssue::ZeroAttachments { resource: r as usize })
            } else {
                sized
            }
        },
        _ => duplicate,
    }
}

/// The findings on the first `n` resources, in resource order.
pub open spec fn resource_issues(resources: Seq<NamedResource>, n: int) -> Seq<ConfigIssue>
    decreases n,
{
    if n <= 0 {
        Seq::empty()
    } else {
        resource_issues(resources, n - 1) + resource_issues_at(resources, n - 1)
    }
}

/// Everything that validation finds: first on target buffers, then on
/// channels, then on the resources themselves.
pub open spec fn config_issues(passes: Seq<PassConfig>, resources: Seq<NamedResource>) -> Seq<
    ConfigIssue,
> {
    buffer_issues(passes, resources, passes.len() as int) + channel_issues(
        passes,
        resources,
        passes.len() as int,
    ) + resource_issues(resources, resources.len() as int)
}

/// Validation finds nothing.
pub open spec fn valid_config(passes: Seq<PassConfig>, resources: Seq<NamedResource>) -> bool {
    config_issues(passes, resources).len() == 0
}

fn named_among_first(resources: &Vec<NamedResource>, n: usize) -> (r: bool)
    requires
        n < resources.len(),
    ensures
        r == named_before(resources@, resources@[n as int].name@, n as int),
{
    let mut i: usize = 0;
    while i < n
        invariant
            i <= n < resources.len(),
            !named_before(resources@, resources@[n as int].name@, i as int),
        decreases n - i,
    {
        if resources[i].name == resources[n].name {
            return true;
        }
        i = i + 1;
    }
    false
}

/// Collects every finding on a list of passes and a list of resources.
pub fn find_issues(passes: &Vec<PassConfig>, resources: &Vec<NamedResource>) -> (issues: Vec<
    ConfigIssue,
>)
    ensures
        issues@ == config_issues(passes@, resources@),
{
    let mut issues: Vec<ConfigIssue> = Vec::new();
    let mut p: usize = 0;
    while p < passes.len()
        invariant
            p <= passes.len(),
            issues@ == buffer_issues(passes@, resources@, p as int),
        decreases passes.len() - p,
    {
        if let Some(name) = &passes[p].buffer {
            if find_resource(resources, name).is_none() {
                issues.push(ConfigIssue::BufferNotFound { pass: p });
            }
        }
        p = p + 1;
    }
    let ghost on_buffers = issues@;
    p = 0;
    while p < passes.len()
        invariant
            p <= passes.len(),
            issues@ == on_buffers + channel_issues(passes@, resources@, p as int),
        decreases passes.len() - p,
    {
        let channels = &passes[p].uniform_to_channel;
        let ghost before = issues@;
        let mut c: usize = 0;
        while c < channels.len()
            invariant
                c <= channels.len(),
                issues@ == before + pass_channel_issues(channels@, p, resources@, c as int),
            decreases channels.len() - c,
        {
            let name = channels[c].channel.resource_name();
            match find_resource(resources, name) {
                None => {
                    issues.push(ConfigIssue::ResourceNotFound { pass: p, channel: c });
                },
                Some(i) => {
                    proof {
                        lemma_first_named_is_choice(resources@, name@, i as int);
                    }
                    if resources[i].config.uniform() {
                        issues.push(ConfigIssue::UniformAsSampler { pass: p, channel: c });
                    }
                },
            }
            c = c + 1;
        }
        p = p + 1;
    }
    let ghost on_passes = issues@;
    let mut r: usize = 0;
    while r < resources.len()
        invariant
            r <= resources.len(),
            issues@ == on_passes + resource_issues(resources@, r as int),
        decreases resources.len() - r,
    {
        if named_among_first(resources, r) {
            issues.push(ConfigIssue::DuplicateName { resource: r });
        }
        if let ResourceConfig::Buffer(buffer) = &resources[r].config {
            let width = match buffer.width {
                Some(w) => w,
                None => 1,
            };
            let height = match buffer.height {
                Some(h) => h,
                None => 1,
            };
            if width == 0 || height == 0 {
                issues.push(ConfigIssue::ZeroSizedBuffer { resource: r });
            }
            if buffer.attachments == 0 {
                issues.push(ConfigIssue::ZeroAttachments { resource: r });
            }
        }
        r = r + 1;
    }
    issues
}


impl EffectConfig {
    #[verifier::type_invariant]
    spec fn checked(self) -> bool {
        self.ok == valid_config(self.passes@, self.resources@)
    }

    /// The passes, in drawing order.
    pub closed spec fn pass_list(self) -> Seq<PassConfig> {
        self.passes@
    }

    /// The named resources.
    pub closed spec fn resource_list(self) -> Seq<NamedResource> {
        self.resources@
    }

    /// Validation finds nothing wrong with this configuration.
    pub open spec fn valid(self) -> bool {
        valid_config(self.pass_list(), self.resource_list())
    }

    /// Builds a configuration and validates it once; `is_ok` reports the verdict.
    pub fn new(passes: Vec<PassConfig>, resources: Vec<NamedResource>) -> (config: EffectConfig)
        ensures
            config.pass_list() == passes@,
            config.resource_list() == resources@,
    {
        let issues = find_issues(&passes, &resources);
        let ok = issues.len() == 0;
        EffectConfig { passes, resources, ok }
    }

    /// Whether the configuration passed validation. A renderer does no work
    /// for one that did not.
    pub fn is_ok(&self) -> (ok: bool)
        ensures
            ok == self.valid(),
    {
        proof {
            use_type_invariant(self);
        }
        self.ok
    }

    /// Lists what is wrong with the configuration; nothing, if it is valid.
    pub fn validate(&self) -> (issues: Vec<ConfigIssue>)
        ensures
            issues@ == config_issues(self.pass_list(), self.resource_list()),
    {
        find_issues(&self.passes, &self.resources)
    }

    pub fn passes(&self) -> (passes: &Vec<PassConfig>)
        ensures
            passes@ == self.pass_list(),
    {
        &self.passes
    }

    pub fn resources(&self) -> (resources: &Vec<NamedResource>)
        ensures
            resources@ == self.resource_list(),
    {
        &self.resources
    }

    /// Structural equality of two configurations: the same passes and the same
    /// resources, entry by entry.
    pub open spec fn same(self, other: EffectConfig) -> bool {
        same_passes(self.pass_list(), other.pass_list()) && same_resources(
            self.resource_list(),
            other.resource_list(),
        )
    }

    pub fn equals(&self, other: &EffectConfig) -> (r: bool)
        ensures
            r == self.same(*other),
    {
        passes_equal(&self.passes, &other.passes) && resources_equal(
            &self.resources,
            &other.resources,
        )
    }
}

impl Clone for EffectConfig {
    /// Copies the passes and the resources and validates the copy.
    fn clone(&self) -> (copy: EffectConfig)
        ensures
            copy.same(*self),
    {
        EffectConfig::new(copy_passes(&self.passes), copy_resources(&self.resources))
    }
}

impl Default for EffectConfig {
    /// The empty configuration: no pass, no resource.
    fn default() -> (config: EffectConfig)
        ensures
            config.pass_list().len() == 0,
            config.resource_list().len() == 0,
    {
        EffectConfig::new(Vec::new(), Vec::new())
    }
}

} // verus!
