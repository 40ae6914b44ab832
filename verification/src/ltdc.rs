//! LCD-TFT display controller.
//!
//! `LtdcRegisters` models the controller's global and per-layer enable bits
//! and its shadow-register reload requests; the controller applies a
//! requested reload either immediately or at the next vertical blanking.

use vstd::prelude::*;

verus! {

/// Model of the display controller's enable and reload state.
#[derive(Debug, Clone, Copy, PartialEq, Eq, Structural)]
pub struct LtdcRegisters {
    /// Global controller enable.
    pub enabled: bool,
    /// An immediate shadow-register reload is requested.
    pub immediate_reload: bool,
    /// A shadow-register reload at the next vertical blanking is requested.
    pub vertical_blanking_reload: bool,
    /// The first layer is enabled.
    pub layer1_enabled: bool,
    /// The second layer is enabled.
    pub layer2_enabled: bool,
}

/// LTDC peripheral.
#[derive(Debug, Clone, Copy, PartialEq, Eq, Structural)]
pub struct Ltdc {}

impl Ltdc {
    /// Returns the peripheral instance.
    pub fn new() -> (r: Self)
        ensures
            r == (Ltdc {}),
    {
        Self {}
    }

    /// Deinitializes the peripheral: the controller is switched off.
    pub fn deinit(&mut self, regs: &mut LtdcRegisters)
        ensures
            *final(regs) == (LtdcRegisters { enabled: false, ..*old(regs) }),
    {
        self.disable(regs);
    }

    /// Reloads the shadow registers immediately.
    pub fn reload_configuration_immediately(&mut self, regs: &mut LtdcRegisters)
        ensures
            *final(regs) == (LtdcRegisters { immediate_reload: true, ..*old(regs) }),
    {
        regs.immediate_reload = true;
    }

    /// Reloads the shadow registers during the next vertical blanking period.
    pub fn reload_configuration_on_blanking(&mut self, regs: &mut LtdcRegisters)
        ensures
            *final(regs) == (LtdcRegisters { vertical_blanking_reload: true, ..*old(regs) }),
    {
        regs.vertical_blanking_reload = true;
    }

    /// Enables a layer.
    pub fn enable_layer(&mut self, regs: &mut LtdcRegisters, layer: Layer)
        ensures
            layer == Layer::Layer1 ==> *final(regs) == (
            LtdcRegisters { layer1_enabled: true, ..*old(regs) }),
            layer == Layer::Layer2 ==> *final(regs) == (
            LtdcRegisters { layer2_enabled: true, ..*old(regs) }),
    {
        match layer {
            Layer::Layer1 => {
                regs.layer1_enabled = true;
            },
            Layer::Layer2 => {
                regs.layer2_enabled = true;
            },
        }
    }

    /// Disables a layer.
    pub fn disable_layer(&mut self, regs: &mut LtdcRegisters, layer: Layer)
        ensures
            layer == Layer::Layer1 ==> *final(regs) == (
            LtdcRegisters { layer1_enabled: false, ..*old(regs) }),
            layer == Layer::Layer2 ==> *final(regs) == (
            LtdcRegisters { layer2_enabled: false, ..*old(regs) }),
    {
        match layer {
            Layer::Layer1 => {
                regs.layer1_enabled = false;
            },
            Layer::Layer2 => {
                regs.layer2_enabled = false;
            },
        }
    }

    /// Enables the peripheral.
    pub fn enable(&mut self, regs: &mut LtdcRegisters)
        ensures
            *final(regs) == (LtdcRegisters { enabled: true, ..*old(regs) }),
    {
        regs.enabled = true;
    }

    /// Disables the peripheral.
    pub fn disable(&mut self, regs: &mut LtdcRegisters)
        ensures
            *final(regs) == (LtdcRegisters { enabled: false, ..*old(regs) }),
    {
        regs.enabled = false;
    }

    /// Returns if the peripheral is enabled.
    pub fn is_enabled(&self, regs: &LtdcRegisters) -> (r: bool)
        ensures
            r == regs.enabled,
    {
        regs.enabled
    }
}

/// Configuration settings.
#[derive(Debug, Clone)]
pub struct LtdcConfig {
    /// Active width in pixel clocks.
    pub active_width: u32,
    /// Active height in scan lines.
    pub active_height: u32,
    /// Pixel format.
    pub pixel_format: PixelFormat,
    /// Address of frame buffer containing the pixels.
    pub frame_buffer_address: u32,
    /// Horizontal synchronization width in pixel clocks.
    pub horizontal_synchronization_width: u32,
    /// Accumulated horizontal back porch in pixel clocks.
    pub horizontal_back_porch: u32,
    /// Accumulated horizontal front porch in pixel clocks.
    pub horizontal_front_porch: u32,
    /// Vertical synchronization height in scan lines.
    pub vertical_synchronization_height: u32,
    /// Accumulated vertical back porch in scan lines.
    pub vertical_back_porch: u32,
    /// Accumulated vertical back porch in scan lines.
    pub vertical_front_porch: u32,
    /// Horizontal synchronization polarity.
    pub hsync_polarity: Polarity,
    /// Vertical synchronization polarity.
    pub vsync_polarity: Polarity,
    /// Not data enable polarity.
    pub not_data_enable_polarity: Polarity,
    /// Pixel clock polarity.
    pub pixel_clock_polarity: Polarity,
    /// Enable dithering.
    pub dithering: bool,
}

/// Signal polarity when active.
#[derive(Debug, Clone, Copy, PartialEq, Eq, Structural)]
pub enum Polarity {
    /// Low.
    ActiveLow,
    /// High.
    ActiveHigh,
}

/// Register bit encoding of each polarity.
pub open spec fn spec_polarity_bit(value: Polarity) -> bool {
    match value {
        Polarity::ActiveLow => false,
        Polarity::ActiveHigh => true,
    }
}

impl Polarity {
    /// Returns the register bit encoding.
    pub fn bit(&self) -> (r: bool)
        ensures
            r == spec_polarity_bit(*self),
    {
        match self {
            Polarity::ActiveLow => false,
            Polarity::ActiveHigh => true,
        }
    }
}

/// Pixel format for framebuffer data.
#[derive(Debug, Clone, Copy, PartialEq, Eq, Structural)]
pub enum PixelFormat {
    /// ARGB8888 format.
    Argb8888,
    /// RGB888 format.
    Rgb888,
    /// RGB565 format.
    Rgb565,
    /// ARGB1555 format.
    Argb1555,
    /// ARGB4444 format.
    Argb4444,
    /// 8-bit luminance.
    L8,
    /// 4-bit alpha, 4-bit luminance.
    Al44,
    /// 8-bit alpha, 8-bit luminance.
    Al88,
}

/// Register field encoding of each pixel format.
pub open spec fn spec_pixel_format_bits(value: PixelFormat) -> u8 {
    match value {
        PixelFormat::Argb8888 => 0b000,
        PixelFormat::Rgb888 => 0b001,
        PixelFormat::Rgb565 => 0b010,
        PixelFormat::Argb1555 => 0b011,
        PixelFormat::Argb4444 => 0b100,
        PixelFormat::L8 => 0b101,
        PixelFormat::Al44 => 0b110,
        PixelFormat::Al88 => 0b111,
    }
}

/// Bytes one pixel occupies in the frame buffer, for each pixel format.
pub open spec fn spec_pixel_format_bytes(value: PixelFormat) -> u32 {
    match value {
        PixelFormat::Argb8888 => 4,
        PixelFormat::Rgb888 => 3,
        PixelFormat::Rgb565 => 2,
        PixelFormat::Argb1555 => 2,
        PixelFormat::Argb4444 => 2,
        PixelFormat::L8 => 1,
        PixelFormat::Al44 => 1,
        PixelFormat::Al88 => 2,
    }
}

impl PixelFormat {
    /// Returns the register field encoding.
    pub fn bits(&self) -> (r: u8)
        ensures
            r == spec_pixel_format_bits(*self),
    {
        match self {
            PixelFormat::Argb8888 => 0b000,
            PixelFormat::Rgb888 => 0b001,
            PixelFormat::Rgb565 => 0b010,
            PixelFormat::Argb1555 => 0b011,
            PixelFormat::Argb4444 => 0b100,
            PixelFormat::L8 => 0b101,
            PixelFormat::Al44 => 0b110,
            PixelFormat::Al88 => 0b111,
        }
    }

    /// Returns the bytes one pixel occupies in the frame buffer.
    pub fn bytes_per_pixel(&self) -> (r: u32)
        ensures
            r == spec_pixel_format_bytes(*self),
    {
        match self {
            PixelFormat::Argb8888 => 4,
            PixelFormat::Rgb888 => 3,
            PixelFormat::Rgb565 => 2,
            PixelFormat::Argb1555 => 2,
            PixelFormat::Argb4444 => 2,
            PixelFormat::L8 => 1,
            PixelFormat::Al44 => 1,
            PixelFormat::Al88 => 2,
        }
    }
}

/// Layer selection.
#[derive(Debug, Clone, Copy, PartialEq, Eq, Structural)]
pub enum Layer {
    /// Layer 1.
    Layer1,
    /// Layer 2.
    Layer2,
}

/// Layer configuration.
#[derive(Debug, Clone)]
pub struct LayerConfig {
    /// Window X0 position.
    pub window_x0: u32,
    /// Window X1 position.
    pub window_x1: u32,
    /// Window Y0 position.
    pub window_y0: u32,
    /// Window Y1 position.
    pub window_y1: u32,
    /// Pixel format.
    pub pixel_format: PixelFormat,
    /// Address of frame buffer.
    pub frame_buffer_address: u32,
}

} // verus!
