use crate::config::{ChannelConfig, NamedChannel, NamedResource, PassConfig, ResourceConfig};
use vstd::prelude::*;

verus! {

/// Two optional strings hold the same text, or are both absent.
pub open spec fn same_text(a: Option<String>, b: Option<String>) -> bool {
    match (a, b) {
        (Some(x), Some(y)) => x@ == y@,
        (None, None) => true,
        _ => false,
    }
}

fn text_equals(a: &Option<String>, b: &Option<String>) -> (r: bool)
    ensures
        r == same_text(*a, *b),
{
    match (a, b) {
        (Some(x), Some(y)) => *x == *y,
        (None, None) => true,
        _ => false,
    }
}

fn words2_equal(a: &[u32; 2], b: &[u32; 2]) -> (r: bool)
    ensures
        r == (a@ == b@),
{
    let r = a[0] == b[0] && a[1] == b[1];
    assert(r == (a@ =~= b@));
    r
}

fn words3_equal(a: &[u32; 3], b: &[u32; 3]) -> (r: bool)
    ensures
        r == (a@ == b@),
{
    let r = a[0] == b[0] && a[1] == b[1] && a[2] == b[2];
    assert(r == (a@ =~= b@));
    r
}

fn words4_equal(a: &[u32; 4], b: &[u32; 4]) -> (r: bool)
    ensures
        r == (a@ == b@),
{
    let r = a[0] == b[0] && a[1] == b[1] && a[2] == b[2] && a[3] == b[3];
    assert(r == (a@ =~= b@));
    r
}

/// Two optional clear colours agree, component by component.
pub open spec fn same_color(a: Option<[u32; 4]>, b: Option<[u32; 4]>) -> bool {
    match (a, b) {
        (Some(x), Some(y)) => x@ == y@,
        (None, None) => true,
        _ => false,
    }
}

fn color_equals(a: &Option<[u32; 4]>, b: &Option<[u32; 4]>) -> (r: bool)
    ensures
        r == same_color(*a, *b),
{
    match (a, b) {
        (Some(x), Some(y)) => words4_equal(x, y),
        (None, None) => true,
        _ => false,
    }
}

impl ResourceConfig {
    /// Structural equality: the same kind, with the same text in every path
    /// and the same value in every other field.
    pub open spec fn same(self, other: ResourceConfig) -> bool {
        match (self, other) {
            (ResourceConfig::Image(a), ResourceConfig::Image(b)) => {
                a.image@ == b.image@ && a.flipv == b.flipv && a.fliph == b.fliph
            },
            (ResourceConfig::Texture2D(a), ResourceConfig::Texture2D(b)) => {
                a.texture_2d@ == b.texture_2d@ && a.width == b.width && a.height == b.height
                    && a.format == b.format
            },
            (ResourceConfig::Texture3D(a), ResourceConfig::Texture3D(b)) => {
                a.texture_3d@ == b.texture_3d@ && a.width == b.width && a.height == b.height
                    && a.depth == b.depth && a.format == b.format
            },
            (ResourceConfig::Cubemap(a), ResourceConfig::Cubemap(b)) => {
                a.right@ == b.right@ && a.left@ == b.left@ && a.top@ == b.top@ && a.bottom@
                    == b.bottom@ && a.back@ == b.back@ && a.front@ == b.front@ && a.flipv
                    == b.flipv && a.fliph == b.fliph
            },
            (ResourceConfig::Video(a), ResourceConfig::Video(b)) => a.video@ == b.video@,
            (ResourceConfig::WebCam(a), ResourceConfig::WebCam(b)) => a == b,
            (ResourceConfig::Keyboard(a), ResourceConfig::Keyboard(b)) => a == b,
            (ResourceConfig::Audio(a), ResourceConfig::Audio(b)) => {
                a.audio@ == b.audio@ && a.bands == b.bands
            },
            (ResourceConfig::Microphone(a), ResourceConfig::Microphone(b)) => a == b,
            (ResourceConfig::GstAppSinkPipeline(a), ResourceConfig::GstAppSinkPipeline(b)) => {
                a.pipeline@ == b.pipeline@
            },
            (ResourceConfig::Buffer(a), ResourceConfig::Buffer(b)) => a == b,
            (ResourceConfig::UniformFloat(a), ResourceConfig::UniformFloat(b)) => a == b,
            (ResourceConfig::UniformVec2(a), ResourceConfig::UniformVec2(b)) => {
                a.uniform@ == b.uniform@ && a.min@ == b.min@ && a.max@ == b.max@
            },
            (ResourceConfig::UniformVec3(a), ResourceConfig::UniformVec3(b)) => {
                a.uniform@ == b.uniform@ && a.min@ == b.min@ && a.max@ == b.max@
            },
            (ResourceConfig::UniformVec4(a), ResourceConfig::UniformVec4(b)) => {
                a.uniform@ == b.uniform@ && a.min@ == b.min@ && a.max@ == b.max@
            },
            _ => false,
        }
    }

    pub fn equals(&self, other: &ResourceConfig) -> (r: bool)
        ensures
            r == self.same(*other),
    {
        match (self, other) {
            (ResourceConfig::Image(a), ResourceConfig::Image(b)) => {
                a.image == b.image && a.flipv == b.flipv && a.fliph == b.fliph
            },
            (ResourceConfig::Texture2D(a), ResourceConfig::Texture2D(b)) => {
                a.texture_2d == b.texture_2d && a.width == b.width && a.height == b.height
                    && a.format == b.format
            },
            (ResourceConfig::Texture3D(a), ResourceConfig::Texture3D(b)) => {
                a.texture_3d == b.texture_3d && a.width == b.width && a.height == b.height
                    && a.depth == b.depth && a.format == b.format
            },
            (ResourceConfig::Cubemap(a), ResourceConfig::Cubemap(b)) => {
                a.right == b.right && a.left == b.left && a.top == b.top && a.bottom == b.bottom
                    && a.back == b.back && a.front == b.front && a.flipv == b.flipv && a.fliph
                    == b.fliph
            },
            (ResourceConfig::Video(a), ResourceConfig::Video(b)) => a.video == b.video,
            (ResourceConfig::WebCam(a), ResourceConfig::WebCam(b)) => *a == *b,
            (ResourceConfig::Keyboard(a), ResourceConfig::Keyboard(b)) => *a == *b,
            (ResourceConfig::Audio(a), ResourceConfig::Audio(b)) => {
                a.audio == b.audio && a.bands == b.bands
            },
            (ResourceConfig::Microphone(a), ResourceConfig::Microphone(b)) => *a == *b,
            (ResourceConfig::GstAppSinkPipeline(a), ResourceConfig::GstAppSinkPipeline(b)) => {
                a.pipeline == b.pipeline
            },
            (ResourceConfig::Buffer(a), ResourceConfig::Buffer(b)) => *a == *b,
            (ResourceConfig::UniformFloat(a), ResourceConfig::UniformFloat(b)) => *a == *b,
            (ResourceConfig::UniformVec2(a), ResourceConfig::UniformVec2(b)) => {
                words2_equal(&a.uniform, &b.uniform) && words2_equal(&a.min, &b.min)
                    && words2_equal(&a.max, &b.max)
            },
            (ResourceConfig::UniformVec3(a), ResourceConfig::UniformVec3(b)) => {
                words3_equal(&a.uniform, &b.uniform) && words3_equal(&a.min, &b.min)
                    && words3_equal(&a.max, &b.max)
            },
            (ResourceConfig::UniformVec4(a), ResourceConfig::UniformVec4(b)) => {
                words4_equal(&a.uniform, &b.uniform) && words4_equal(&a.min, &b.min)
                    && words4_equal(&a.max, &b.max)
            },
            _ => false,
        }
    }
}

impl NamedResource {
    pub open spec fn same(self, other: NamedResource) -> bool {
        self.name@ == other.name@ && self.config.same(other.config)
    }

    pub fn equals(&self, other: &NamedResource) -> (r: bool)
        ensures
            r == self.same(*other),
    {
        self.name == other.name && self.config.equals(&other.config)
    }
}

impl ChannelConfig {
    pub open spec fn same(self, other: ChannelConfig) -> bool {
        match (self, other) {
            (ChannelConfig::Simple(a), ChannelConfig::Simple(b)) => a@ == b@,
            (
                ChannelConfig::Complete { resource: r1, attachment: a1, wrap: w1, filter: f1 },
                ChannelConfig::Complete { resource: r2, attachment: a2, wrap: w2, filter: f2 },
            ) => r1@ == r2@ && a1 == a2 && w1 == w2 && f1 == f2,
            _ => false,
        }
    }

    pub fn equals(&self, other: &ChannelConfig) -> (r: bool)
        ensures
            r == self.same(*other),
    {
        match (self, other) {
            (ChannelConfig::Simple(a), ChannelConfig::Simple(b)) => *a == *b,
            (
                ChannelConfig::Complete { resource: r1, attachment: a1, wrap: w1, filter: f1 },
                ChannelConfig::Complete { resource: r2, attachment: a2, wrap: w2, filter: f2 },
            ) => *r1 == *r2 && *a1 == *a2 && *w1 == *w2 && *f1 == *f2,
            _ => false,
        }
    }
}

impl NamedChannel {
    pub open spec fn same(self, other: NamedChannel) -> bool {
        self.uniform@ == other.uniform@ && self.channel.same(other.channel)
    }

    pub fn equals(&self, other: &NamedChannel) -> (r: bool)
        ensures
            r == self.same(*other),
    {
        self.uniform == other.uniform && self.channel.equals(&other.channel)
    }
}

/// Two channel lists agree entry by entry.
pub open spec fn same_channels(a: Seq<NamedChannel>, b: Seq<NamedChannel>) -> bool {
    a.len() == b.len() && forall|i: int| 0 <= i < a.len() ==> (#[trigger] a[i]).same(b[i])
}

fn channels_equal(a: &Vec<NamedChannel>, b: &Vec<NamedChannel>) -> (r: bool)
    ensures
        r == same_channels(a@, b@),
{
    if a.len() != b.len() {
        return false;
    }
    let mut i: usize = 0;
    while i < a.len()
        invariant
            i <= a.len(),
            a.len() == b.len(),
            forall|j: int| 0 <= j < i ==> (#[trigger] a@[j]).same(b@[j]),
        decreases a.len() - i,
    {
        if !a[i].equals(&b[i]) {
            return false;
        }
        i = i + 1;
    }
    true
}

impl PassConfig {
    pub open spec fn same(self, other: PassConfig) -> bool {
        &&& self.draw == other.draw
        &&& self.vertex@ == other.vertex@
        &&& self.fragment@ == other.fragment@
        &&& same_text(self.geometry, other.geometry)
        &&& same_channels(self.uniform_to_channel@, other.uniform_to_channel@)
        &&& same_text(self.buffer, other.buffer)
        &&& same_color(self.clear, other.clear)
        &&& self.clear_depth == other.clear_depth
        &&& self.blend == other.blend
        &&& self.depth == other.depth
        &&& self.disable == other.disable
        &&& self.loop_count == other.loop_count
    }

    pub fn equals(&self, other: &PassConfig) -> (r: bool)
        ensures
            r == self.same(*other),
    {
        self.draw == other.draw && self.vertex == other.vertex && self.fragment == other.fragment
            && text_equals(&self.geometry, &other.geometry) && channels_equal(
            &self.uniform_to_channel,
            &other.uniform_to_channel,
        ) && text_equals(&self.buffer, &other.buffer) && color_equals(&self.clear, &other.clear)
            && self.clear_depth == other.clear_depth && self.blend == other.blend && self.depth
            == other.depth && self.disable == other.disable && self.loop_count
            == other.loop_count
    }
}

/// Two pass lists agree entry by entry.
pub open spec fn same_passes(a: Seq<PassConfig>, b: Seq<PassConfig>) -> bool {
    a.len() == b.len() && forall|i: int| 0 <= i < a.len() ==> (#[trigger] a[i]).same(b[i])
}

pub fn passes_equal(a: &Vec<PassConfig>, b: &Vec<PassConfig>) -> (r: bool)
    ensures
        r == same_passes(a@, b@),
{
    if a.len() != b.len() {
        return false;
    }
    let mut i: usize = 0;
    while i < a.len()
        invariant
            i <= a.len(),
            a.len() == b.len(),
            forall|j: int| 0 <= j < i ==> (#[trigger] a@[j]).same(b@[j]),
        decreases a.len() - i,
    {
        if !a[i].equals(&b[i]) {
            return false;
        }
        i = i + 1;
    }
    true
}

/// Two resource lists agree entry by entry.
pub open spec fn same_resources(a: Seq<NamedResource>, b: Seq<NamedResource>) -> bool {
    a.len() == b.len() && forall|i: int| 0 <= i < a.len() ==> (#[trigger] a[i]).same(b[i])
}

pub fn resources_equal(a: &Vec<NamedResource>, b: &Vec<NamedResource>) -> (r: bool)
    ensures
        r == same_resources(a@, b@),
{
    if a.len() != b.len() {
        return false;
    }
    let mut i: usize = 0;
    while i < a.len()
        invariant
            i <= a.len(),
            a.len() == b.len(),
            forall|j: int| 0 <= j < i ==> (#[trigger] a@[j]).same(b@[j]),
        decreases a.len() - i,
    {
        if !a[i].equals(&b[i]) {
            return false;
        }
        i = i + 1;
    }
    true
}


fn copy_text(text: &Option<String>) -> (copy: Option<String>)
    ensures
        same_text(copy, *text),
{
    match text {
        Some(t) => Some(t.clone()),
        None => None,
    }
}

impl ResourceConfig {
    /// A copy with the same content.
    pub fn copy(&self) -> (copy: ResourceConfig)
        ensures
            copy.same(*self),
    {
        match self {
            ResourceConfig::Image(c) => ResourceConfig::Image(
                crate::config::ImageConfig {
                    image: c.image.clone(),
                    flipv: c.flipv,
                    fliph: c.fliph,
                },
            ),
            ResourceConfig::Texture2D(c) => ResourceConfig::Texture2D(
                crate::config::Texture2DConfig {
                    texture_2d: c.texture_2d.clone(),
                    width: c.width,
                    height: c.height,
                    format: c.format,
                },
            ),
            ResourceConfig::Texture3D(c) => ResourceConfig::Texture3D(
                crate::config::Texture3DConfig {
                    texture_3d: c.texture_3d.clone(),
                    width: c.width,
                    height: c.height,
                    depth: c.depth,
                    format: c.format,
                },
            ),
            ResourceConfig::Cubemap(c) => ResourceConfig::Cubemap(
                crate::config::CubemapConfig {
                    right: c.right.clone(),
                    left: c.left.clone(),
                    top: c.top.clone(),
                    bottom: c.bottom.clone(),
                    back: c.back.clone(),
                    front: c.front.clone(),
                    flipv: c.flipv,
                    fliph: c.fliph,
                },
            ),
            ResourceConfig::Video(c) => ResourceConfig::Video(
                crate::config::VideoConfig { video: c.video.clone() },
            ),
            ResourceConfig::WebCam(c) => ResourceConfig::WebCam(*c),
            ResourceConfig::Keyboard(c) => ResourceConfig::Keyboard(*c),
            ResourceConfig::Audio(c) => ResourceConfig::Audio(
                crate::config::AudioConfig { audio: c.audio.clone(), bands: c.bands },
            ),
            ResourceConfig::Microphone(c) => ResourceConfig::Microphone(*c),
            ResourceConfig::GstAppSinkPipeline(c) => ResourceConfig::GstAppSinkPipeline(
                crate::config::GstVideoPipelineConfig { pipeline: c.pipeline.clone() },
            ),
            ResourceConfig::Buffer(c) => ResourceConfig::Buffer(*c),
            ResourceConfig::UniformFloat(c) => ResourceConfig::UniformFloat(*c),
            ResourceConfig::UniformVec2(c) => ResourceConfig::UniformVec2(*c),
            ResourceConfig::UniformVec3(c) => ResourceConfig::UniformVec3(*c),
            ResourceConfig::UniformVec4(c) => ResourceConfig::UniformVec4(*c),
        }
    }
}

impl ChannelConfig {
    /// A copy with the same content.
    pub fn copy(&self) -> (copy: ChannelConfig)
        ensures
            copy.same(*self),
    {
        match self {
            ChannelConfig::Simple(name) => ChannelConfig::Simple(name.clone()),
            ChannelConfig::Complete { resource, attachment, wrap, filter } => {
                ChannelConfig::Complete {
                    resource: resource.clone(),
                    attachment: *attachment,
                    wrap: *wrap,
                    filter: *filter,
                }
            },
        }
    }
}

impl PassConfig {
    /// A copy with the same content.
    pub fn copy(&self) -> (copy: PassConfig)
        ensures
            copy.same(*self),
    {
        let mut channels: Vec<NamedChannel> = Vec::new();
        let mut c: usize = 0;
        while c < self.uniform_to_channel.len()
            invariant
                c <= self.uniform_to_channel@.len(),
                channels@.len() == c,
                forall|k: int|
                    0 <= k < c ==> (#[trigger] channels@[k]).same(self.uniform_to_channel@[k]),
            decreases self.uniform_to_channel@.len() - c,
        {
            channels.push(
                NamedChannel {
                    uniform: self.uniform_to_channel[c].uniform.clone(),
                    channel: self.uniform_to_channel[c].channel.copy(),
                },
            );
            c = c + 1;
        }
        PassConfig {
            draw: self.draw,
            vertex: self.vertex.clone(),
            fragment: self.fragment.clone(),
            geometry: copy_text(&self.geometry),
            uniform_to_channel: channels,
            buffer: copy_text(&self.buffer),
            clear: self.clear,
            clear_depth: self.clear_depth,
            blend: self.blend,
            depth: self.depth,
            disable: self.disable,
            loop_count: self.loop_count,
        }
    }
}

/// Copies a list of passes.
pub fn copy_passes(passes: &Vec<PassConfig>) -> (copy: Vec<PassConfig>)
    ensures
        same_passes(copy@, passes@),
{
    let mut copy: Vec<PassConfig> = Vec::new();
    let mut p: usize = 0;
    while p < passes.len()
        invariant
            p <= passes.len(),
            copy@.len() == p,
            forall|k: int| 0 <= k < p ==> (#[trigger] copy@[k]).same(passes@[k]),
        decreases passes.len() - p,
    {
        copy.push(passes[p].copy());
        p = p + 1;
    }
    copy
}

/// Copies a list of resources.
pub fn copy_resources(resources: &Vec<NamedResource>) -> (copy: Vec<NamedResource>)
    ensures
        same_resources(copy@, resources@),
{
    let mut copy: Vec<NamedResource> = Vec::new();
    let mut r: usize = 0;
    while r < resources.len()
        invariant
            r <= resources.len(),
            copy@.len() == r,
            forall|k: int| 0 <= k < r ==> (#[trigger] copy@[k]).same(resources@[k]),
        decreases resources.len() - r,
    {
        copy.push(
            NamedResource { name: resources[r].name.clone(), config: resources[r].config.copy() },
        );
        r = r + 1;
    }
    copy
}

} // verus!
