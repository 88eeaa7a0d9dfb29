//! Blend state configuration: how drawn colors combine with the target.

use vstd::prelude::*;

verus! {

/// A formula for blending two color or alpha values.
#[derive(Clone, Copy, Debug, PartialEq, Eq, Structural)]
pub enum BlendOperation {
    /// `(srcValue * srcBlendFactor) + (dstValue * dstBlendFactor)`
    Add,
    /// `(srcValue * srcBlendFactor) - (dstValue * dstBlendFactor)`
    Subtract,
    /// `(dstValue * dstBlendFactor) - (srcValue * srcBlendFactor)`
    ReverseSubtract,
    /// `min((srcValue * srcBlendFactor), (dstValue * dstBlendFactor))`
    Min,
    /// `max((srcValue * srcBlendFactor), (dstValue * dstBlendFactor))`
    Max,
}

/// A multiplier applied to a color or alpha value before blending it.
#[derive(Clone, Copy, Debug, PartialEq, Eq, Structural)]
pub enum BlendFactor {
    /// Each component is multiplied by zero.
    Zero,
    /// Each component is multiplied by one.
    One,
    /// Each component is multiplied by the corresponding source component.
    Src,
    /// Each component is multiplied by the inverse of the corresponding
    /// source component.
    OneMinusSrc,
    /// Each component is multiplied by the source alpha value.
    SrcAlpha,
    /// Each component is multiplied by the inverse of the source alpha value.
    OneMinusSrcAlpha,
    /// Each component is multiplied by the corresponding destination
    /// component.
    Dst,
    /// Each component is multiplied by the inverse of the corresponding
    /// destination component.
    OneMinusDst,
    /// Each component is multiplied by the destination alpha value.
    DstAlpha,
    /// Each component is multiplied by the inverse of the destination alpha
    /// value.
    OneMinusDstAlpha,
    /// Color components are multiplied by the smaller of the source alpha and
    /// its inverse; alpha is left as it is.
    SrcAlphaSaturated,
    /// Each component is multiplied by a constant value.
    Constant,
    /// Each component is multiplied by the inverse of a constant value.
    OneMinusConstant,
}

/// How colors are blended when drawing to the current target.
///
/// Compared by value: setting an equal blend state is a no-op, while setting
/// a different one drains the pending batch first.
#[derive(Clone, Copy, Debug, PartialEq, Eq, Structural)]
pub struct BlendState {
    /// The operation applied to the RGB components.
    pub color_operation: BlendOperation,
    /// The factor applied to the RGB components of the source color.
    pub color_src: BlendFactor,
    /// The factor applied to the RGB components of the destination color.
    pub color_dst: BlendFactor,
    /// The operation applied to the alpha components.
    pub alpha_operation: BlendOperation,
    /// The factor applied to the alpha component of the source color.
    pub alpha_src: BlendFactor,
    /// The factor applied to the alpha component of the destination color.
    pub alpha_dst: BlendFactor,
}

impl BlendState {
    /// The blend state every context starts with: non-premultiplied alpha
    /// blending.
    pub open spec fn default_spec() -> BlendState {
        BlendState {
            color_operation: BlendOperation::Add,
            color_src: BlendFactor::SrcAlpha,
            color_dst: BlendFactor::OneMinusSrcAlpha,
            alpha_operation: BlendOperation::Add,
            alpha_src: BlendFactor::One,
            alpha_dst: BlendFactor::OneMinusSrcAlpha,
        }
    }

    /// The alpha of the drawn content determines its opacity.
    ///
    /// With `premultiplied` set, the RGB components are assumed to already be
    /// scaled by alpha, so the source color factor is one instead of the
    /// source alpha.
    pub fn alpha(premultiplied: bool) -> (s: BlendState)
        ensures
            s.color_operation == BlendOperation::Add,
            s.color_src == if premultiplied {
                BlendFactor::One
            } else {
                BlendFactor::SrcAlpha
            },
            s.color_dst == BlendFactor::OneMinusSrcAlpha,
            s.alpha_operation == BlendOperation::Add,
            s.alpha_src == BlendFactor::One,
            s.alpha_dst == BlendFactor::OneMinusSrcAlpha,
            !premultiplied ==> s == BlendState::default_spec(),
    {
        let color_src = if premultiplied {
            BlendFactor::One
        } else {
            BlendFactor::SrcAlpha
        };

        BlendState {
            color_operation: BlendOperation::Add,
            color_src,
            color_dst: BlendFactor::OneMinusSrcAlpha,
            alpha_operation: BlendOperation::Add,
            alpha_src: BlendFactor::One,
            alpha_dst: BlendFactor::OneMinusSrcAlpha,
        }
    }

    /// The drawn colors are added to the colors already in the target; the
    /// target's alpha is not affected.
    pub fn add(premultiplied: bool) -> (s: BlendState)
        ensures
            s.color_operation == BlendOperation::Add,
            s.color_src == if premultiplied {
                BlendFactor::One
            } else {
                BlendFactor::SrcAlpha
            },
            s.color_dst == BlendFactor::One,
            s.alpha_operation == BlendOperation::Add,
            s.alpha_src == BlendFactor::Zero,
            s.alpha_dst == BlendFactor::One,
    {
        let color_src = if premultiplied {
            BlendFactor::One
        } else {
            BlendFactor::SrcAlpha
        };

        BlendState {
            color_operation: BlendOperation::Add,
            color_src,
            color_dst: BlendFactor::One,
            alpha_operation: BlendOperation::Add,
            alpha_src: BlendFactor::Zero,
            alpha_dst: BlendFactor::One,
        }
    }

    /// The drawn colors are subtracted from the colors already in the target;
    /// the target's alpha is not affected.
    pub fn subtract(premultiplied: bool) -> (s: BlendState)
        ensures
            s.color_operation == BlendOperation::ReverseSubtract,
            s.color_src == if premultiplied {
                BlendFactor::One
            } else {
                BlendFactor::SrcAlpha
            },
            s.color_dst == BlendFactor::One,
            s.alpha_operation == BlendOperation::ReverseSubtract,
            s.alpha_src == BlendFactor::Zero,
            s.alpha_dst == BlendFactor::One,
    {
        let color_src = if premultiplied {
            BlendFactor::One
        } else {
            BlendFactor::SrcAlpha
        };

        BlendState {
            color_operation: BlendOperation::ReverseSubtract,
            color_src,
            color_dst: BlendFactor::One,
            alpha_operation: BlendOperation::ReverseSubtract,
            alpha_src: BlendFactor::Zero,
            alpha_dst: BlendFactor::One,
        }
    }

    /// The drawn colors are multiplied with the colors already in the target,
    /// alpha included.
    pub fn multiply() -> (s: BlendState)
        ensures
            s.color_operation == BlendOperation::Add,
            s.color_src == BlendFactor::Dst,
            s.color_dst == BlendFactor::Zero,
            s.alpha_operation == BlendOperation::Add,
            s.alpha_src == BlendFactor::Dst,
            s.alpha_dst == BlendFactor::Zero,
    {
        BlendState {
            color_operation: BlendOperation::Add,
            color_src: BlendFactor::Dst,
            color_dst: BlendFactor::Zero,
            alpha_operation: BlendOperation::Add,
            alpha_src: BlendFactor::Dst,
            alpha_dst: BlendFactor::Zero,
        }
    }
}

impl Default for BlendState {
    /// Non-premultiplied alpha blending.
    fn default() -> (s: Self)
        ensures
            s == BlendState::default_spec(),
    {
        BlendState::alpha(false)
    }
}

} // verus!
