//! The four modes of the picture processing unit and the state each carries.

use vstd::prelude::*;

verus! {

/// The steps of a pixel fetcher.
#[derive(Clone, Copy, Debug, PartialEq, Eq, Structural)]
pub enum PixelFetcherState {
    GetTile,
    GetTileLow,
    GetTileHigh,
    Sleep,
    Push,
}

/// The state of the scan for the sprites of a scanline.
#[derive(Clone, Copy, Debug, PartialEq, Eq, Structural)]
pub struct OamScanState {
    /// The offset in OAM of the entry under the scan.
    pub oam_pointer: usize,
    /// The offset in the secondary OAM where the next selected entry goes.
    pub secondary_oam_pointer: usize,
    /// Whether the entry under the scan lies on the scanline.
    pub is_visible: bool,
}

/// The state of the two fetchers while a scanline is drawn.
#[derive(Clone, Copy)]
pub struct DrawingState {
    /// The step of the background fetcher.
    pub pixel_fetcher: PixelFetcherState,
    /// The dot within that step, 0 or 1.
    pub cycle: u8,
    /// The number of tiles the background fetcher has pushed since it last started.
    pub fetcher_x: u8,
    /// Whether the background fetcher reads the window.
    pub is_window: bool,
    /// Whether a sprite fetch runs; the background fetcher and the output wait.
    pub is_sprite: bool,
    /// The entry in the secondary OAM that the sprite search turns to next.
    pub sprite_idx: u8,
    /// The tile the background fetcher works on.
    pub tile_idx: u8,
    /// The attribute byte of that tile; zero outside Color mode.
    pub tile_attr: u8,
    /// The low byte of the tile row the background fetcher reads.
    pub tile_low: u8,
    /// The row of pixels the background fetcher has read.
    pub buffer: [u8; 8],
    /// The step of the sprite fetcher.
    pub sprite_fetcher: PixelFetcherState,
    /// The dot within that step, 0 or 1.
    pub sprite_cycle: u8,
    /// The low byte of the tile row the sprite fetcher reads.
    pub sprite_low: u8,
    /// The row of pixels the sprite fetcher has read.
    pub sprite_buffer: [u8; 8],
    /// The pixels still to drop from the background queue before output begins.
    pub discard: u8,
}

/// The mode of the picture processing unit.
#[derive(Clone, Copy)]
pub enum FifoMode {
    HBlank,
    VBlank,
    OamScan(OamScanState),
    Drawing(DrawingState),
}

impl OamScanState {
    /// The scan at the first entry, nothing selected.
    pub open spec fn initial() -> OamScanState {
        OamScanState { oam_pointer: 0, secondary_oam_pointer: 0, is_visible: false }
    }
}

impl Default for OamScanState {
    fn default() -> (r: Self)
        ensures
            r == OamScanState::initial(),
    {
        OamScanState { oam_pointer: 0, secondary_oam_pointer: 0, is_visible: false }
    }
}

impl Default for PixelFetcherState {
    fn default() -> (r: Self)
        ensures
            r == PixelFetcherState::GetTile,
    {
        PixelFetcherState::GetTile
    }
}

impl DrawingState {
    /// Both fetchers at their first step, nothing read yet.
    pub open spec fn initial() -> DrawingState {
        DrawingState {
            pixel_fetcher: PixelFetcherState::GetTile,
            cycle: 0,
            fetcher_x: 0,
            is_window: false,
            is_sprite: false,
            sprite_idx: 0,
            tile_idx: 0,
            tile_attr: 0,
            tile_low: 0,
            buffer: [0u8, 0u8, 0u8, 0u8, 0u8, 0u8, 0u8, 0u8],
            sprite_fetcher: PixelFetcherState::GetTile,
            sprite_cycle: 0,
            sprite_low: 0,
            sprite_buffer: [0u8, 0u8, 0u8, 0u8, 0u8, 0u8, 0u8, 0u8],
            discard: 0,
        }
    }

    /// The state with the background fetcher back at its first step.
    pub open spec fn reset_spec(self) -> DrawingState {
        DrawingState {
            pixel_fetcher: PixelFetcherState::GetTile,
            cycle: 0,
            tile_idx: 0,
            tile_attr: 0,
            tile_low: 0,
            buffer: [0u8, 0u8, 0u8, 0u8, 0u8, 0u8, 0u8, 0u8],
            ..self
        }
    }

    /// Sends the background fetcher back to its first step.
    pub fn reset(&mut self)
        ensures
            *final(self) == old(self).reset_spec(),
    {
        self.pixel_fetcher = PixelFetcherState::GetTile;
        self.cycle = 0;
        self.tile_idx = 0;
        self.tile_attr = 0;
        self.tile_low = 0;
        self.buffer = [0u8, 0u8, 0u8, 0u8, 0u8, 0u8, 0u8, 0u8];
    }
}

impl Default for DrawingState {
    fn default() -> (r: Self)
        ensures
            r == DrawingState::initial(),
    {
        DrawingState {
            pixel_fetcher: PixelFetcherState::GetTile,
            cycle: 0,
            fetcher_x: 0,
            is_window: false,
            is_sprite: false,
            sprite_idx: 0,
            tile_idx: 0,
            tile_attr: 0,
            tile_low: 0,
            buffer: [0u8, 0u8, 0u8, 0u8, 0u8, 0u8, 0u8, 0u8],
            sprite_fetcher: PixelFetcherState::GetTile,
            sprite_cycle: 0,
            sprite_low: 0,
            sprite_buffer: [0u8, 0u8, 0u8, 0u8, 0u8, 0u8, 0u8, 0u8],
            discard: 0,
        }
    }
}

impl FifoMode {
    /// The mode number that STAT shows in its low two bits.
    pub open spec fn number(self) -> u8 {
        match self {
            FifoMode::HBlank => 0,
            FifoMode::VBlank => 1,
            FifoMode::OamScan(_) => 2,
            FifoMode::Drawing(_) => 3,
        }
    }

    /// Whether the video RAM is closed to the processor: while a line is drawn.
    pub open spec fn blocks_vram(self) -> bool {
        self is Drawing
    }

    /// Whether the sprite table is closed to the processor: while it is scanned
    /// and while a line is drawn.
    pub open spec fn blocks_oam(self) -> bool {
        self is Drawing || self is OamScan
    }
}

impl Default for FifoMode {
    fn default() -> (r: Self)
        ensures
            r == FifoMode::OamScan(OamScanState::initial()),
    {
        FifoMode::OamScan(OamScanState { oam_pointer: 0, secondary_oam_pointer: 0, is_visible: false })
    }
}

impl vstd::std_specs::convert::FromSpecImpl<FifoMode> for u8 {
    open spec fn obeys_from_spec() -> bool {
        true
    }

    open spec fn from_spec(item: FifoMode) -> u8 {
        item.number()
    }
}

impl From<FifoMode> for u8 {
    fn from(item: FifoMode) -> (r: u8)
        ensures
            r == item.number(),
    {
        match item {
            FifoMode::HBlank => 0,
            FifoMode::VBlank => 1,
            FifoMode::OamScan(_) => 2,
            FifoMode::Drawing(_) => 3,
        }
    }
}

} // verus!
