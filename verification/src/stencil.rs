//! Stencil state configuration: masking drawn pixels against the stencil
//! buffer.

use vstd::prelude::*;

verus! {

/// The test for whether a pixel is visible when using a stencil.
#[derive(Clone, Copy, Debug, PartialEq, Eq, Structural)]
pub enum StencilTest {
    /// The pixel is never visible.
    Never,
    /// Visible if the reference value is less than the stencil value.
    LessThan,
    /// Visible if the reference value is less than or equal to the stencil
    /// value.
    LessThanOrEqualTo,
    /// Visible if the reference value is equal to the stencil value.
    EqualTo,
    /// Visible if the reference value is not equal to the stencil value.
    NotEqualTo,
    /// Visible if the reference value is greater than the stencil value.
    GreaterThan,
    /// Visible if the reference value is greater than or equal to the stencil
    /// value.
    GreaterThanOrEqualTo,
    /// The pixel is always visible.
    Always,
}

/// How drawing operations modify the stencil buffer.
#[derive(Clone, Copy, Debug, PartialEq, Eq, Structural)]
pub enum StencilAction {
    /// Leave the stencil buffer unchanged.
    Keep,
    /// Set the corresponding stencil values to zero.
    Zero,
    /// Replace the corresponding stencil values with the reference value.
    Replace,
    /// Increment the corresponding stencil values, saturating at 255.
    Increment,
    /// Increment the corresponding stencil values, wrapping from 255 to 0.
    IncrementWrap,
    /// Decrement the corresponding stencil values, saturating at 0.
    Decrement,
    /// Decrement the corresponding stencil values, wrapping from 0 to 255.
    DecrementWrap,
    /// Bitwise invert the corresponding stencil values.
    Invert,
}

/// A global stencil configuration.
#[derive(Clone, Copy, Debug, PartialEq, Eq, Structural)]
pub struct StencilState {
    /// Whether stencil testing is enabled.
    pub enabled: bool,
    /// How drawing operations affect the stencil buffer.
    pub action: StencilAction,
    /// How drawn pixels are compared to the stencil buffer.
    pub test: StencilTest,
    /// The value used for most tests and for `StencilAction::Replace`.
    pub reference_value: u8,
    /// A bitmask ANDed with stencil values before they are written.
    pub write_mask: u8,
    /// A bitmask ANDed with the reference value and the stencil value before
    /// a test.
    pub read_mask: u8,
}

impl StencilState {
    /// A configuration that disables use of the stencil buffer.
    pub fn disabled() -> (s: Self)
        ensures
            s == (StencilState {
                enabled: false,
                action: StencilAction::Keep,
                test: StencilTest::Always,
                reference_value: 0u8,
                write_mask: 0u8,
                read_mask: 0u8,
            }),
    {
        Self {
            enabled: false,
            action: StencilAction::Keep,
            test: StencilTest::Always,
            reference_value: 0,
            write_mask: 0x00,
            read_mask: 0x00,
        }
    }

    /// A configuration that writes drawn pixels to the stencil buffer.
    pub fn write(action: StencilAction, reference_value: u8) -> (s: Self)
        ensures
            s == (StencilState {
                enabled: true,
                action,
                test: StencilTest::Always,
                reference_value,
                write_mask: 0xFFu8,
                read_mask: 0xFFu8,
            }),
    {
        Self {
            enabled: true,
            action,
            test: StencilTest::Always,
            reference_value,
            write_mask: 0xFF,
            read_mask: 0xFF,
        }
    }

    /// A configuration that compares drawn pixels to the stencil buffer to
    /// determine which are visible.
    pub fn read(test: StencilTest, reference_value: u8) -> (s: Self)
        ensures
            s == (StencilState {
                enabled: true,
                action: StencilAction::Keep,
                test,
                reference_value,
                write_mask: 0xFFu8,
                read_mask: 0xFFu8,
            }),
    {
        Self {
            enabled: true,
            action: StencilAction::Keep,
            test,
            reference_value,
            write_mask: 0xFF,
            read_mask: 0xFF,
        }
    }
}

} // verus!
