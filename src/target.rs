use vstd::prelude::*;
use crate::extent::{clamp_dim, Extent2d};
use crate::texture::{
    TextureFormat, DEPTH_ATTACHMENT_FORMAT, DIFFUSE_ATTACHMENT_FORMAT, FINAL_ATTACHMENT_FORMAT,
    LIGHT_ATTACHMENT_FORMAT, NORMAL_ATTACHMENT_FORMAT,
};

verus! {

/// The three render targets of a frame, in the order their passes run.
#[derive(Clone, Copy, Debug, PartialEq, Eq, Structural)]
pub enum PassTargetKind {
    /// Geometry pass: the G-buffer.
    Initial,
    /// Deferred lighting pass: the lit color.
    Deferred,
    /// Post-process and UI pass: the color that is blitted to the surface.
    Final,
}

/// What an attachment holds.
#[derive(Clone, Copy, Debug, PartialEq, Eq, Structural)]
pub enum AttachmentUsage {
    Diffuse,
    Normal,
    Light,
    Depth,
    Color,
}

/// One attachment of a pass target, as the device allocates it.
#[derive(Clone, Copy, Debug, PartialEq, Eq, Structural)]
pub struct Attachment {
    pub usage: AttachmentUsage,
    pub format: TextureFormat,
    pub width: u32,
    pub height: u32,
    pub sample_count: u32,
}

/// The attachments of each kind of target, in binding order.
pub open spec fn layout(kind: PassTargetKind) -> Seq<(AttachmentUsage, TextureFormat)> {
    match kind {
        PassTargetKind::Initial => seq![
            (AttachmentUsage::Diffuse, DIFFUSE_ATTACHMENT_FORMAT),
            (AttachmentUsage::Normal, NORMAL_ATTACHMENT_FORMAT),
            (AttachmentUsage::Light, LIGHT_ATTACHMENT_FORMAT),
            (AttachmentUsage::Depth, DEPTH_ATTACHMENT_FORMAT),
        ],
        PassTargetKind::Deferred => seq![(AttachmentUsage::Color, DIFFUSE_ATTACHMENT_FORMAT)],
        PassTargetKind::Final => seq![(AttachmentUsage::Color, FINAL_ATTACHMENT_FORMAT)],
    }
}

/// The sample count a target of `kind` runs at when `requested` is asked for:
/// nothing past the lighting stage is multisampled.
pub open spec fn target_sample_count(kind: PassTargetKind, requested: u32) -> u32 {
    match kind {
        PassTargetKind::Final => 1,
        _ => requested,
    }
}

/// A set of attachments that one render pass writes, sharing one size and
/// one sample count.
#[derive(Clone, Debug)]
pub struct PassTarget {
    kind: PassTargetKind,
    size: Extent2d,
    sample_count: u32,
    attachments: Vec<Attachment>,
}

impl PassTarget {
    pub closed spec fn kind_spec(&self) -> PassTargetKind {
        self.kind
    }

    pub closed spec fn size_spec(&self) -> Extent2d {
        self.size
    }

    pub closed spec fn sample_count_spec(&self) -> u32 {
        self.sample_count
    }

    pub closed spec fn attachments_spec(&self) -> Seq<Attachment> {
        self.attachments@
    }

    /// This target is what `new(kind, size, requested)` builds: it reports
    /// `size`, and each attachment of the kind's layout is allocated at the
    /// clamped size and the target's sample count.
    pub open spec fn built(&self, kind: PassTargetKind, size: Extent2d, requested: u32) -> bool {
        &&& self.kind_spec() == kind
        &&& self.size_spec() == size
        &&& self.sample_count_spec() == target_sample_count(kind, requested)
        &&& self.attachments_spec().len() == layout(kind).len()
        &&& forall|i: int|
            0 <= i < self.attachments_spec().len() ==> #[trigger] self.attachments_spec()[i] == (
            Attachment {
                usage: layout(kind)[i].0,
                format: layout(kind)[i].1,
                width: clamp_dim(size.width),
                height: clamp_dim(size.height),
                sample_count: target_sample_count(kind, requested),
            })
    }

    /// Builds the target of `kind` for a surface of `size`.
    pub fn new(kind: PassTargetKind, size: Extent2d, sample_count: u32) -> (r: PassTarget)
        ensures
            r.built(kind, size, sample_count),
    {
        let samples = match kind {
            PassTargetKind::Final => 1,
            _ => sample_count,
        };
        let alloc = size.allocation_extent();
        let mut attachments: Vec<Attachment> = Vec::new();
        let attach = |usage: AttachmentUsage, format: TextureFormat| -> (a: Attachment)
            ensures
                a == (Attachment {
                    usage,
                    format,
                    width: alloc.width,
                    height: alloc.height,
                    sample_count: samples,
                }),
            { Attachment { usage, format, width: alloc.width, height: alloc.height, sample_count: samples } };
        match kind {
            PassTargetKind::Initial => {
                attachments.push(attach(AttachmentUsage::Diffuse, DIFFUSE_ATTACHMENT_FORMAT));
                attachments.push(attach(AttachmentUsage::Normal, NORMAL_ATTACHMENT_FORMAT));
                attachments.push(attach(AttachmentUsage::Light, LIGHT_ATTACHMENT_FORMAT));
                attachments.push(attach(AttachmentUsage::Depth, DEPTH_ATTACHMENT_FORMAT));
            },
            PassTargetKind::Deferred => {
                attachments.push(attach(AttachmentUsage::Color, DIFFUSE_ATTACHMENT_FORMAT));
            },
            PassTargetKind::Final => {
                attachments.push(attach(AttachmentUsage::Color, FINAL_ATTACHMENT_FORMAT));
            },
        }
        PassTarget { kind, size, sample_count: samples, attachments }
    }

    /// Which pass this target belongs to.
    pub fn kind(&self) -> (r: PassTargetKind)
        ensures
            r == self.kind_spec(),
    {
        self.kind
    }

    /// The logical size the target was built for.
    pub fn size(&self) -> (r: Extent2d)
        ensures
            r == self.size_spec(),
    {
        self.size
    }

    /// The sample count shared by all attachments.
    pub fn sample_count(&self) -> (r: u32)
        ensures
            r == self.sample_count_spec(),
    {
        self.sample_count
    }

    /// The attachments, in binding order.
    pub fn attachments(&self) -> (r: &[Attachment])
        ensures
            r@ == self.attachments_spec(),
    {
        self.attachments.as_slice()
    }

    /// The format of the first color attachment.
    pub fn format(&self) -> (r: TextureFormat)
        requires
            self.built(self.kind_spec(), self.size_spec(), self.sample_count_spec()),
        ensures
            r == layout(self.kind_spec())[0].1,
    {
        self.attachments[0].format
    }
}

/// A target reports exactly the size it was built for, while every
/// attachment is allocated at that size with each zero dimension raised to
/// one.
pub proof fn lemma_target_size(t: PassTarget, kind: PassTargetKind, w: u32, h: u32, samples: u32)
    requires
        t.built(kind, Extent2d { width: w, height: h }, samples),
    ensures
        t.size_spec() == (Extent2d { width: w, height: h }),
        w >= 1 && h >= 1 ==> forall|i: int|
            0 <= i < t.attachments_spec().len() ==> #[trigger] t.attachments_spec()[i].width == w
                && t.attachments_spec()[i].height == h,
        forall|i: int|
            0 <= i < t.attachments_spec().len() ==> (#[trigger] t.attachments_spec()[i]).width == (
            if w == 0 { 1 } else { w }) && t.attachments_spec()[i].height == (if h == 0 { 1 } else { h })
                && t.attachments_spec()[i].sample_count == t.sample_count_spec(),
{
}

} // verus!
