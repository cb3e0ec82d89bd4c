//! The picture processing unit: video RAM (0x8000 - 0x9FFF), object
//! attribute memory (0xFE00 - 0xFE9F), the LCD registers (0xFF40 - 0xFF4B),
//! the mode cycle of each scanline, and the rendering of background, window
//! and sprites into a 160 x 144 screen buffer of 0RGB colours.
use vstd::prelude::*;
use crate::bits;

verus! {

/// Width of the screen in pixels.
pub const SCREEN_WIDTH: usize = 160;

/// Height of the screen in pixels.
pub const SCREEN_HEIGHT: usize = 144;

/// Number of pixels on the screen.
pub const SCREEN_PIXELS: usize = 23040;

/// The colour of shade 0 (white).
pub const WHITE: u32 = 0x00FFFFFF;

/// Mode 0: horizontal blank.
pub const MODE_HBLANK: u8 = 0;

/// Mode 1: vertical blank.
pub const MODE_VBLANK: u8 = 1;

/// Mode 2: searching object attribute memory.
pub const MODE_OAM_SEARCH: u8 = 2;

/// Mode 3: transferring the line to the LCD.
pub const MODE_TRANSFER: u8 = 3;

/// Interrupt flag bit of the vertical blank interrupt.
pub const INTERRUPT_VBLANK: u8 = 0b00000001;

/// Interrupt flag bit of the LCD status interrupt.
pub const INTERRUPT_LCD_STAT: u8 = 0b00000010;

pub struct PPU {
    lcdc: u8,  // LCD Control (0xFF40)
    stat: u8,  // LCDC Status (0xFF41)
    scy: u8,  // Scroll Y (0xFF42)
    scx: u8,  // Scroll X (0xFF43)
    ly: u8,  // LY (0xFF44)
    lyc: u8,  // LYC (0xFF45)
    dma: u8,  // DMA Transfer and Start Address (0xFF46)
    bgp: u8,  // BG Palette Data (0xFF47)
    obp0: u8,  // Object Palette 0 Data (0xFF48)
    obp1: u8,  // Object Palette 1 Data (0xFF49)
    wy: u8,  // Window Y Position (0xFF4A)
    wx: u8,  // Window X Position minus 7 (0xFF4B)
    vram: [u8; 8192],  // Video RAM (0x8000 - 0x9FFF)
    oam: [u8; 160],  // Object Attribute Memory (0xFE00 - 0xFE9F)
    dma_transfer_enabled: bool,
    screen_buffer: [u32; 23040],  // Screen buffer, row by row
    mode: u8,
    cycles: u32,
    frame_ready: bool,
}

/// The state of the picture processing unit.
#[verifier::ext_equal]
pub struct PpuState {
    pub lcdc: u8,
    pub stat: u8,
    pub scy: u8,
    pub scx: u8,
    pub ly: u8,
    pub lyc: u8,
    pub dma: u8,
    pub bgp: u8,
    pub obp0: u8,
    pub obp1: u8,
    pub wy: u8,
    pub wx: u8,
    pub vram: Seq<u8>,
    pub oam: Seq<u8>,
    /// Whether a write to 0xFF46 asked for a transfer into OAM.
    pub dma_pending: bool,
    /// The screen, row by row, 160 pixels a row.
    pub screen: Seq<u32>,
    pub mode: u8,
    pub cycles: u32,
    pub frame_ready: bool,
}

/// Whether the picture processing unit answers at `address`.
pub open spec fn is_ppu_address(address: u16) -> bool {
    (0x8000 <= address <= 0x9FFF) || (0xFE00 <= address <= 0xFE9F) || (0xFF40 <= address
        <= 0xFF4B)
}

/// The colour that a two-bit shade shows.
pub open spec fn shade_color(shade: u8) -> u32 {
    if shade == 0 {
        0x00FFFFFF
    } else if shade == 1 {
        0x00AAAAAA
    } else if shade == 2 {
        0x00555555
    } else {
        0x00000000
    }
}

/// The shade that `palette` gives to colour number `color_index`.
pub open spec fn palette_shade(palette: u8, color_index: u8) -> u8 {
    (palette >> ((color_index * 2) as u8)) & 0x03
}

/// The colour number of the pixel in `column` (7 is the leftmost) of a tile
/// row made of the bytes `low` and `high`.
pub open spec fn color_number(low: u8, high: u8, column: u8) -> u8 {
    (((high >> column) & 1) << 1u8) | ((low >> column) & 1)
}

/// A colour number has two bits.
proof fn lemma_color_number(low: u8, high: u8, column: u8)
    requires
        column < 8,
    ensures
        color_number(low, high, column) < 4,
{
    assert((((high >> column) & 1) << 1u8) | ((low >> column) & 1) < 4) by (bit_vector)
        requires
            column < 8,
    ;
}

/// The address of the first byte of a background or window tile, by the
/// tile data area that LCDC selects.
pub open spec fn tile_address(data_start: int, tile_index: u8) -> int {
    if data_start == 0x8800 {
        data_start + (bits::signed8(tile_index) + 128) * 16
    } else {
        data_start + tile_index * 16
    }
}

impl PpuState {
    /// What a read of `address` gives.
    pub open spec fn register(self, address: u16) -> u8 {
        if 0x8000 <= address <= 0x9FFF {
            self.vram[address - 0x8000]
        } else if 0xFE00 <= address <= 0xFE9F {
            self.oam[address - 0xFE00]
        } else if address == 0xFF40 {
            self.lcdc
        } else if address == 0xFF41 {
            self.stat
        } else if address == 0xFF42 {
            self.scy
        } else if address == 0xFF43 {
            self.scx
        } else if address == 0xFF44 {
            self.ly
        } else if address == 0xFF45 {
            self.lyc
        } else if address == 0xFF46 {
            self.dma
        } else if address == 0xFF47 {
            self.bgp
        } else if address == 0xFF48 {
            self.obp0
        } else if address == 0xFF49 {
            self.obp1
        } else if address == 0xFF4A {
            self.wy
        } else {
            self.wx
        }
    }

    /// The unit after the program writes `value` to `address`; a write to
    /// 0xFF46 also asks for a transfer into OAM.
    pub open spec fn written(self, address: u16, value: u8) -> PpuState {
        if 0x8000 <= address <= 0x9FFF {
            PpuState { vram: self.vram.update(address - 0x8000, value), ..self }
        } else if 0xFE00 <= address <= 0xFE9F {
            PpuState { oam: self.oam.update(address - 0xFE00, value), ..self }
        } else if address == 0xFF40 {
            PpuState { lcdc: value, ..self }
        } else if address == 0xFF41 {
            PpuState { stat: value, ..self }
        } else if address == 0xFF42 {
            PpuState { scy: value, ..self }
        } else if address == 0xFF43 {
            PpuState { scx: value, ..self }
        } else if address == 0xFF44 {
            PpuState { ly: value, ..self }
        } else if address == 0xFF45 {
            PpuState { lyc: value, ..self }
        } else if address == 0xFF46 {
            PpuState { dma: value, dma_pending: true, ..self }
        } else if address == 0xFF47 {
            PpuState { bgp: value, ..self }
        } else if address == 0xFF48 {
            PpuState { obp0: value, ..self }
        } else if address == 0xFF49 {
            PpuState { obp1: value, ..self }
        } else if address == 0xFF4A {
            PpuState { wy: value, ..self }
        } else {
            PpuState { wx: value, ..self }
        }
    }

    /// The byte of video RAM at `address` (0x8000 - 0x9FFF).
    pub open spec fn vram_at(self, address: int) -> u8 {
        self.vram[address - 0x8000]
    }

    pub open spec fn display_enabled(self) -> bool {
        self.lcdc & 0x80 != 0
    }

    pub open spec fn background_enabled(self) -> bool {
        self.lcdc & 0x01 != 0
    }

    pub open spec fn window_enabled(self) -> bool {
        self.lcdc & 0x20 != 0
    }

    /// Where the background and window tiles take their data from.
    pub open spec fn tile_data_start(self) -> int {
        if self.lcdc & 0x10 != 0 {
            0x8000
        } else {
            0x8800
        }
    }

    /// The colour of a background or window pixel: tile `tile_index`, row
    /// `row` and column `column` (0 is the leftmost) within the tile.
    pub open spec fn tile_pixel(self, tile_index: u8, row: int, column: int) -> u32 {
        let address = tile_address(self.tile_data_start(), tile_index);
        let low = self.vram_at(address + row * 2);
        let high = self.vram_at(address + row * 2 + 1);
        shade_color(palette_shade(self.bgp, color_number(low, high, (7 - column) as u8)))
    }

    /// The colour of the background at column `x` of the current line.
    pub open spec fn background_pixel(self, x: int) -> u32 {
        let y_offset = (self.ly + self.scy) % 256;
        let x_offset = (x + self.scx) % 256;
        let map_start = if self.lcdc & 0x08 != 0 {
            0x9C00int
        } else {
            0x9800int
        };
        let tile_index = self.vram_at(map_start + (y_offset / 8) * 32 + x_offset / 8);
        self.tile_pixel(tile_index, y_offset % 8, x_offset % 8)
    }

    /// The colour of the window at column `x` of the current line.
    pub open spec fn window_pixel(self, x: int) -> u32 {
        let window_y = self.ly - self.wy;
        let window_x = x + 7 - self.wx;
        let map_start = if self.lcdc & 0x40 != 0 {
            0x9C00int
        } else {
            0x9800int
        };
        let tile_index = self.vram_at(map_start + (window_y / 8) * 32 + window_x / 8);
        self.tile_pixel(tile_index, window_y % 8, window_x % 8)
    }

    /// Whether the window covers column `x` of the current line.
    pub open spec fn window_covers(self, x: int) -> bool {
        self.window_enabled() && self.ly >= self.wy && x + 7 >= self.wx
    }

    /// Whether screen position `k` lies on the current line.
    pub open spec fn on_line(self, k: int) -> bool {
        self.ly * 160 <= k < self.ly * 160 + 160
    }

    /// The unit with the background drawn across the current line.
    pub open spec fn background_drawn(self) -> PpuState {
        PpuState {
            screen: Seq::new(
                23040,
                |k: int|
                    if self.on_line(k) {
                        self.background_pixel(k - self.ly * 160)
                    } else {
                        self.screen[k]
                    },
            ),
            ..self
        }
    }

    /// The unit with the window drawn where it covers the current line.
    pub open spec fn window_drawn(self) -> PpuState {
        PpuState {
            screen: Seq::new(
                23040,
                |k: int|
                    if self.on_line(k) && self.window_covers(k - self.ly * 160) {
                        self.window_pixel(k - self.ly * 160)
                    } else {
                        self.screen[k]
                    },
            ),
            ..self
        }
    }

    /// The top row of sprite `i`, on the screen's scale.
    pub open spec fn sprite_y(self, i: int) -> int {
        self.oam[i * 4] - 16
    }

    /// The left column of sprite `i`, on the screen's scale.
    pub open spec fn sprite_x(self, i: int) -> int {
        self.oam[i * 4 + 1] - 8
    }

    /// The height of sprites: 16 or 8 rows as LCDC selects.
    pub open spec fn sprite_height(self) -> int {
        if self.lcdc & 0x04 != 0 {
            16
        } else {
            8
        }
    }

    /// Whether sprite `i` has a row on the current line.
    pub open spec fn sprite_visible(self, i: int) -> bool {
        self.sprite_y(i) <= self.ly && self.sprite_y(i) + self.sprite_height() > self.ly
    }

    /// The address of the tile data of sprite `i`.
    pub open spec fn sprite_tile_address(self, i: int) -> int {
        let tile_index = self.oam[i * 4 + 2];
        if self.lcdc & 0x10 == 0 && tile_index >= 0x80 {
            0x8800 + (bits::signed8(tile_index) + 128) * 16
        } else {
            0x8000 + tile_index * 16
        }
    }

    /// The colour number of pixel `x` (0 - 7, before flipping) of the row of
    /// sprite `i` that lies on the current line.
    pub open spec fn sprite_color_number(self, i: int, x: int) -> u8 {
        let attributes = self.oam[i * 4 + 3];
        let offset = self.ly - self.sprite_y(i);
        let row = if attributes & 0x40 != 0 {
            self.sprite_height() - 1 - offset
        } else {
            offset
        };
        let column = if attributes & 0x20 != 0 {
            7 - x
        } else {
            x
        };
        let address = self.sprite_tile_address(i);
        color_number(
            self.vram_at(address + row * 2),
            self.vram_at(address + row * 2 + 1),
            (7 - column) as u8,
        )
    }

    /// The colour that sprite `i` gives to colour number `color_index`.
    pub open spec fn sprite_color(self, i: int, color_index: u8) -> u32 {
        let palette = if self.oam[i * 4 + 3] & 0x10 != 0 {
            self.obp1
        } else {
            self.obp0
        };
        shade_color(palette_shade(palette, color_index))
    }

    /// Whether pixel `x` of sprite `i` is opaque and on the screen.
    pub open spec fn sprite_pixel_shown(self, i: int, x: int) -> bool {
        self.sprite_color_number(i, x) != 0 && 0 <= self.sprite_x(i) + x < 160
    }

    /// `screen` after pixel `x` of sprite `i` is drawn: it covers the
    /// screen where the sprite has priority or the screen is white.
    pub open spec fn sprite_pixel_drawn(self, screen: Seq<u32>, i: int, x: int) -> Seq<u32> {
        if self.sprite_pixel_shown(i, x) {
            let k = self.ly * 160 + self.sprite_x(i) + x;
            if self.oam[i * 4 + 3] & 0x80 == 0 || screen[k] == WHITE {
                screen.update(k, self.sprite_color(i, self.sprite_color_number(i, x)))
            } else {
                screen
            }
        } else {
            screen
        }
    }

    /// `screen` after pixels `x` to 7 of sprite `i` are drawn.
    pub open spec fn sprite_drawn_from(self, screen: Seq<u32>, i: int, x: int) -> Seq<u32>
        decreases 8 - x,
    {
        if x >= 8 {
            screen
        } else {
            self.sprite_drawn_from(self.sprite_pixel_drawn(screen, i, x), i, x + 1)
        }
    }

    /// `screen` after the sprites from `i` on are drawn, `count` sprites of
    /// the line having been drawn already; at most ten are drawn a line.
    pub open spec fn sprites_drawn_from(self, screen: Seq<u32>, i: int, count: int) -> Seq<u32>
        decreases 40 - i,
    {
        if i >= 40 || count >= 10 {
            screen
        } else if self.sprite_visible(i) {
            self.sprites_drawn_from(self.sprite_drawn_from(screen, i, 0), i + 1, count + 1)
        } else {
            self.sprites_drawn_from(screen, i + 1, count)
        }
    }

    /// Whether none of the sprites from `i` on that would be drawn shows a
    /// pixel, `count` sprites of the line having been drawn already.
    pub open spec fn sprites_hidden_from(self, i: int, count: int) -> bool
        decreases 40 - i,
    {
        if i >= 40 || count >= 10 {
            true
        } else if self.sprite_visible(i) {
            (forall|x: int| 0 <= x < 8 ==> !#[trigger] self.sprite_pixel_shown(i, x))
                && self.sprites_hidden_from(i + 1, count + 1)
        } else {
            self.sprites_hidden_from(i + 1, count)
        }
    }

    /// The unit with the sprites drawn on the current line.
    pub open spec fn sprites_drawn(self) -> PpuState {
        PpuState { screen: self.sprites_drawn_from(self.screen, 0, 0), ..self }
    }

    /// The unit after the current line is rendered.
    pub open spec fn scanline_rendered(self) -> PpuState {
        if !self.display_enabled() {
            self
        } else {
            let with_background = if self.background_enabled() {
                self.background_drawn()
            } else {
                self
            };
            with_background.window_drawn().sprites_drawn()
        }
    }

    /// Whether rendering the current line stays on the screen: it is only
    /// drawn on when it is one of the 144 lines.
    pub open spec fn scanline_fits(self) -> bool {
        ||| !self.display_enabled()
        ||| self.ly < 144
        ||| {
            &&& !self.background_enabled()
            &&& !(self.window_enabled() && self.ly >= self.wy && self.wx <= 166)
            &&& self.sprites_hidden_from(0, 0)
        }
    }

    /// Whether the unit can count `cycles` more cycles: the counter stays
    /// in range, the mode is one of the four, and a line that ends is
    /// rendered on the screen and is followed by another line number.
    pub open spec fn can_tick(self, cycles: u16) -> bool {
        let counted = self.cycles + cycles;
        &&& counted <= u32::MAX
        &&& self.mode <= 3
        &&& self.mode == MODE_HBLANK && counted >= 206 ==> self.scanline_fits() && self.ly < 255
        &&& self.mode == MODE_VBLANK && counted >= 456 ==> self.ly < 255
    }

    /// The interrupts that `cycles` more cycles request.
    pub open spec fn tick_requests(self, cycles: u16) -> u8 {
        let counted = self.cycles + cycles;
        if self.mode == MODE_TRANSFER && counted >= 170 {
            let on_hblank: u8 = if self.stat & 0x08 != 0 {
                INTERRUPT_LCD_STAT
            } else {
                0
            };
            let on_coincidence: u8 = if self.ly == self.lyc && self.stat & 0x40 != 0 {
                INTERRUPT_LCD_STAT
            } else {
                0
            };
            on_hblank | on_coincidence
        } else if self.mode == MODE_HBLANK && counted >= 206 && self.ly + 1 == 144 {
            INTERRUPT_VBLANK
        } else {
            0
        }
    }

    /// The unit after `cycles` more cycles.
    pub open spec fn ticked(self, cycles: u16) -> PpuState {
        let counted = (self.cycles + cycles) as u32;
        let s = PpuState { cycles: counted, ..self };
        if s.mode == MODE_OAM_SEARCH {
            if counted >= 80 {
                PpuState {
                    cycles: (counted - 80) as u32,
                    stat: s.stat | 0b11,
                    mode: MODE_TRANSFER,
                    ..s
                }
            } else {
                s
            }
        } else if s.mode == MODE_TRANSFER {
            if counted >= 170 {
                let stat = if s.ly == s.lyc {
                    s.stat | 0b100
                } else {
                    s.stat & !0b100u8
                };
                PpuState {
                    cycles: (counted - 170) as u32,
                    stat: stat & !0b11u8,
                    mode: MODE_HBLANK,
                    ..s
                }
            } else {
                s
            }
        } else if s.mode == MODE_HBLANK {
            if counted >= 206 {
                let r = PpuState { cycles: (counted - 206) as u32, ..s }.scanline_rendered();
                let ly = (r.ly + 1) as u8;
                if ly == 144 {
                    PpuState {
                        ly,
                        stat: (r.stat | 0b01) & !0b10u8,
                        mode: MODE_VBLANK,
                        ..r
                    }
                } else {
                    PpuState {
                        ly,
                        stat: (r.stat | 0b10) & !0b01u8,
                        mode: MODE_OAM_SEARCH,
                        ..r
                    }
                }
            } else {
                s
            }
        } else {
            if counted >= 456 {
                let ly = (s.ly + 1) as u8;
                if ly > 153 {
                    PpuState {
                        cycles: (counted - 456) as u32,
                        ly: 0,
                        stat: (s.stat | 0b10) & !0b01u8,
                        mode: MODE_OAM_SEARCH,
                        frame_ready: true,
                        ..s
                    }
                } else {
                    PpuState { cycles: (counted - 456) as u32, ly, ..s }
                }
            } else {
                s
            }
        }
    }

    /// The unit after a transfer into OAM of `block`, if one was asked for.
    pub open spec fn transferred(self, block: Seq<u8>) -> PpuState {
        if self.dma_pending {
            PpuState { oam: block, dma_pending: false, ..self }
        } else {
            self
        }
    }
}

/// Every byte and register of the picture unit reads back what the
/// program wrote to it; a write to 0xFF46 also asks for a transfer into
/// OAM.
pub proof fn law_ppu_read_after_write(p: PpuState, address: u16, value: u8)
    requires
        p.vram.len() == 8192,
        p.oam.len() == 160,
        is_ppu_address(address),
    ensures
        p.written(address, value).register(address) == value,
        address == 0xFF46 ==> p.written(address, value).dma_pending,
{
}

/// The unit after one whole line: the three phases of a visible line
/// (80, 170 and 206 cycles) or the 456 cycles of a line of vertical blank.
pub open spec fn line_ticked(p: PpuState) -> PpuState {
    if p.mode == MODE_VBLANK {
        p.ticked(456)
    } else {
        p.ticked(80).ticked(170).ticked(206)
    }
}

/// Whether each phase of the next line can be counted.
pub open spec fn line_can_tick(p: PpuState) -> bool {
    if p.mode == MODE_VBLANK {
        p.can_tick(456)
    } else {
        &&& p.can_tick(80)
        &&& p.ticked(80).can_tick(170)
        &&& p.ticked(80).ticked(170).can_tick(206)
    }
}

/// The unit after `n` whole lines.
pub open spec fn lines_ticked(p: PpuState, n: nat) -> PpuState
    decreases n,
{
    if n == 0 {
        p
    } else {
        line_ticked(lines_ticked(p, (n - 1) as nat))
    }
}

/// Whether the unit is at the start of a line: no cycles counted, and
/// searching OAM on one of the 144 visible lines or in vertical blank on
/// one of the ten lines below them.
pub open spec fn at_line_start(p: PpuState) -> bool {
    &&& p.cycles == 0
    &&& (p.ly < 144 && p.mode == MODE_OAM_SEARCH) || (144 <= p.ly <= 153 && p.mode == MODE_VBLANK)
}

/// One line takes the unit from the start of a line to the start of the
/// next, line 153 being followed by line 0 and a finished frame.
proof fn lemma_one_line(p: PpuState)
    requires
        at_line_start(p),
    ensures
        line_can_tick(p),
        at_line_start(line_ticked(p)),
        line_ticked(p).ly == if p.ly == 153 {
            0
        } else {
            p.ly + 1
        },
        line_ticked(p).frame_ready == (p.frame_ready || p.ly == 153),
{
}

/// A frame takes 154 lines of 456 cycles: 144 visible lines, each of 80 +
/// 170 + 206 cycles, and ten lines of vertical blank. From the start of
/// line 0 with no frame ready, the lines follow one another in order, each
/// can be counted, and the frame is first ready when the 154th line ends,
/// back at the start of line 0.
pub proof fn law_frame_length(p: PpuState, n: nat)
    requires
        at_line_start(p),
        p.ly == 0,
        !p.frame_ready,
        n <= 154,
    ensures
        at_line_start(lines_ticked(p, n)),
        n < 154 ==> lines_ticked(p, n).ly == n && !lines_ticked(p, n).frame_ready
            && line_can_tick(lines_ticked(p, n)),
        n == 154 ==> lines_ticked(p, n).ly == 0 && lines_ticked(p, n).frame_ready,
    decreases n,
{
    if n > 0 {
        law_frame_length(p, (n - 1) as nat);
        lemma_one_line(lines_ticked(p, (n - 1) as nat));
    }
    if n < 154 {
        lemma_one_line(lines_ticked(p, n));
    }
}

/// Where the unit is in the frame, in cycles from the start of line 0.
pub open spec fn frame_position(p: PpuState) -> int {
    p.ly * 456 + if p.mode == MODE_OAM_SEARCH {
        p.cycles as int
    } else if p.mode == MODE_TRANSFER {
        80 + p.cycles
    } else if p.mode == MODE_HBLANK {
        250 + p.cycles
    } else {
        p.cycles as int
    }
}

/// Whether the line, mode and cycle count fit together as counting from
/// the start of a frame in steps of 4 cycles leaves them.
pub open spec fn in_step(p: PpuState) -> bool {
    &&& {
        ||| (p.ly < 144 && p.mode == MODE_OAM_SEARCH && p.cycles < 80)
        ||| (p.ly < 144 && p.mode == MODE_TRANSFER && p.cycles < 170)
        ||| (p.ly < 144 && p.mode == MODE_HBLANK && 2 <= p.cycles < 206)
        ||| (144 <= p.ly <= 153 && p.mode == MODE_VBLANK && p.cycles < 456)
    }
    &&& frame_position(p) % 4 == 0
}

/// The unit after `n` steps of 4 cycles.
pub open spec fn ticks_of_4(p: PpuState, n: nat) -> PpuState
    decreases n,
{
    if n == 0 {
        p
    } else {
        ticks_of_4(p, (n - 1) as nat).ticked(4)
    }
}

/// A step of 4 cycles moves the unit 4 cycles on in the frame; the frame
/// is ready when the position comes round to the start of line 0.
proof fn lemma_tick_of_4(p: PpuState)
    requires
        in_step(p),
    ensures
        p.can_tick(4),
        in_step(p.ticked(4)),
        frame_position(p.ticked(4)) == if frame_position(p) + 4 == 70224 {
            0
        } else {
            frame_position(p) + 4
        },
        p.ticked(4).frame_ready == (p.frame_ready || frame_position(p) + 4 == 70224),
{
    let c = p.cycles as int;
    let l = p.ly as int;
    assert((l * 456 + c) % 4 == c % 4);
    assert((l * 456 + 80 + c) % 4 == c % 4);
    assert((l * 456 + 250 + c) % 4 == (c + 2) % 4);
    assert(((l + 1) * 456) % 4 == 0);
}

/// A frame is ready after exactly 17556 steps of 4 cycles (70224 cycles):
/// from the start of line 0 with no frame ready, every step can be
/// counted, the unit is `4 * n` cycles into the frame after `n` steps with
/// no frame ready, and after the 17556th step the frame is ready and the
/// unit is back at the start of line 0.
pub proof fn law_frame_in_steps_of_4(p: PpuState, n: nat)
    requires
        p.mode == MODE_OAM_SEARCH,
        p.cycles == 0,
        p.ly == 0,
        !p.frame_ready,
        n <= 17556,
    ensures
        in_step(ticks_of_4(p, n)),
        n < 17556 ==> frame_position(ticks_of_4(p, n)) == 4 * n && !ticks_of_4(p, n).frame_ready
            && ticks_of_4(p, n).can_tick(4),
        n == 17556 ==> ticks_of_4(p, n).frame_ready && ticks_of_4(p, n).ly == 0
            && ticks_of_4(p, n).mode == MODE_OAM_SEARCH && ticks_of_4(p, n).cycles == 0,
    decreases n,
{
    if n > 0 {
        law_frame_in_steps_of_4(p, (n - 1) as nat);
        lemma_tick_of_4(ticks_of_4(p, (n - 1) as nat));
    }
    if n < 17556 {
        lemma_tick_of_4(ticks_of_4(p, n));
    }
    if n == 17556 {
        let q = ticks_of_4(p, n);
        assert(frame_position(q) == 0);
    }
}

/// Drawing pixel `x2` of sprite `i` leaves every other screen position and
/// the screen's length as they were.
proof fn lemma_pixel_elsewhere(p: PpuState, screen: Seq<u32>, i: int, x2: int, k: int)
    requires
        screen.len() == 23040,
        p.ly < 144,
        0 <= k < 23040,
        k != p.ly * 160 + p.sprite_x(i) + x2,
    ensures
        p.sprite_pixel_drawn(screen, i, x2).len() == screen.len(),
        p.sprite_pixel_drawn(screen, i, x2)[k] == screen[k],
{
}

/// Drawing the pixels of sprite `i` from `x0` on leaves the screen position
/// of an earlier pixel `x` as it was.
proof fn lemma_later_pixels(p: PpuState, screen: Seq<u32>, i: int, x: int, x0: int)
    requires
        screen.len() == 23040,
        p.ly < 144,
        0 <= p.sprite_x(i) + x < 160,
        x < x0,
    ensures
        p.sprite_drawn_from(screen, i, x0).len() == screen.len(),
        p.sprite_drawn_from(screen, i, x0)[p.ly * 160 + p.sprite_x(i) + x] == screen[p.ly * 160
            + p.sprite_x(i) + x],
    decreases 8 - x0,
{
    if x0 < 8 {
        lemma_pixel_elsewhere(p, screen, i, x0, p.ly * 160 + p.sprite_x(i) + x);
        lemma_later_pixels(p, p.sprite_pixel_drawn(screen, i, x0), i, x, x0 + 1);
    }
}

/// Drawing the pixels of sprite `i` from `x0` on puts at the position of
/// pixel `x` what drawing that pixel alone puts there.
proof fn lemma_sprite_pixel(p: PpuState, screen: Seq<u32>, i: int, x: int, x0: int)
    requires
        screen.len() == 23040,
        p.ly < 144,
        0 <= p.sprite_x(i) + x < 160,
        0 <= x0 <= x < 8,
    ensures
        p.sprite_drawn_from(screen, i, x0)[p.ly * 160 + p.sprite_x(i) + x]
            == p.sprite_pixel_drawn(screen, i, x)[p.ly * 160 + p.sprite_x(i) + x],
    decreases x - x0,
{
    let k = p.ly * 160 + p.sprite_x(i) + x;
    if x0 == x {
        lemma_later_pixels(p, p.sprite_pixel_drawn(screen, i, x), i, x, x + 1);
    } else {
        let s1 = p.sprite_pixel_drawn(screen, i, x0);
        lemma_pixel_elsewhere(p, screen, i, x0, k);
        lemma_sprite_pixel(p, s1, i, x, x0 + 1);
        assert(p.sprite_pixel_drawn(s1, i, x)[k] == p.sprite_pixel_drawn(screen, i, x)[k]);
    }
}

/// With no sprite visible from `j` on, drawing the sprites from `j` changes
/// nothing.
proof fn lemma_no_sprites_from(p: PpuState, screen: Seq<u32>, j: int, count: int)
    requires
        0 <= j,
        forall|m: int| j <= m < 40 ==> !#[trigger] p.sprite_visible(m),
    ensures
        p.sprites_drawn_from(screen, j, count) == screen,
    decreases 40 - j,
{
    if j < 40 && count < 10 {
        lemma_no_sprites_from(p, screen, j + 1, count);
    }
}

/// With sprite `i` the only one visible from `j` on, drawing the sprites
/// from `j` draws sprite `i`.
proof fn lemma_only_sprite(p: PpuState, screen: Seq<u32>, i: int, j: int)
    requires
        0 <= j <= i < 40,
        p.sprite_visible(i),
        forall|m: int| j <= m < 40 && m != i ==> !#[trigger] p.sprite_visible(m),
    ensures
        p.sprites_drawn_from(screen, j, 0) == p.sprite_drawn_from(screen, i, 0),
    decreases i - j,
{
    if j == i {
        lemma_no_sprites_from(p, p.sprite_drawn_from(screen, i, 0), i + 1, 1);
    } else {
        lemma_only_sprite(p, screen, i, j + 1);
    }
}

/// Sprite priority: where the only sprite on the current line has an
/// opaque pixel on the screen, rendering the line puts there the sprite's
/// colour (its colour number through OBP0, or OBP1 when attribute bit 4
/// is set) when attribute bit 7 is clear, whatever the background and
/// window left there; when bit 7 is set the sprite shows only through
/// white, and any other colour of the background or window stays.
pub proof fn law_sprite_priority(p: PpuState, i: int, x: int)
    requires
        p.screen.len() == 23040,
        p.lcdc & 0x80 != 0,
        p.ly < 144,
        0 <= i < 40,
        p.sprite_visible(i),
        forall|j: int| 0 <= j < 40 && j != i ==> !#[trigger] p.sprite_visible(j),
        0 <= x < 8,
        p.sprite_color_number(i, x) != 0,
        0 <= p.sprite_x(i) + x < 160,
    ensures
        ({
            let k = p.ly * 160 + p.sprite_x(i) + x;
            let under = (if p.lcdc & 0x01 != 0 {
                p.background_drawn()
            } else {
                p
            }).window_drawn().screen[k];
            let palette = if p.oam[i * 4 + 3] & 0x10 != 0 {
                p.obp1
            } else {
                p.obp0
            };
            let colour = shade_color(palette_shade(palette, p.sprite_color_number(i, x)));
            p.scanline_rendered().screen[k] == if p.oam[i * 4 + 3] & 0x80 == 0 || under
                == 0x00FFFFFF {
                colour
            } else {
                under
            }
        }),
{
    let q = (if p.background_enabled() {
        p.background_drawn()
    } else {
        p
    }).window_drawn();
    assert(q.screen.len() == 23040);
    assert forall|m: int| 0 <= m < 40 && m != i implies !#[trigger] q.sprite_visible(m) by {
        assert(!p.sprite_visible(m));
    }
    lemma_only_sprite(q, q.screen, i, 0);
    lemma_sprite_pixel(q, q.screen, i, x, 0);
    assert(p.scanline_rendered() == q.sprites_drawn());
}

/// Attribute bit 5 mirrors a sprite left to right: with the bit flipped,
/// pixel `x` of the sprite takes the colour number that pixel `7 - x` had.
pub proof fn law_sprite_x_flip(p: PpuState, i: int, x: int)
    requires
        0 <= i < 40,
        0 <= x < 8,
        p.oam.len() == 160,
    ensures
        (PpuState { oam: p.oam.update(i * 4 + 3, p.oam[i * 4 + 3] ^ 0x20), ..p }).sprite_color_number(
            i,
            x,
        ) == p.sprite_color_number(i, 7 - x),
{
    let a = p.oam[i * 4 + 3];
    assert(((a ^ 0x20) & 0x20 != 0) == (a & 0x20 == 0)) by (bit_vector);
    assert(((a ^ 0x20) & 0x40) == (a & 0x40)) by (bit_vector);
    assert(((a ^ 0x20) & 0x10) == (a & 0x10)) by (bit_vector);
}

/// Scrolling the background one pixel to the right (SCX one more) shows at
/// column `x` what column `x + 1` showed.
pub proof fn law_background_scroll(p: PpuState, x: int)
    requires
        0 <= x < 159,
    ensures
        (PpuState { scx: ((p.scx + 1) % 256) as u8, ..p }).background_pixel(x)
            == p.background_pixel(x + 1),
{
    let q = PpuState { scx: ((p.scx + 1) % 256) as u8, ..p };
    assert((x + q.scx) % 256 == (x + 1 + p.scx) % 256);
}

/// Whether sprites are hidden depends only on the memories and registers
/// that place them, not on the screen or the cycle count.
proof fn lemma_sprites_hidden_same(s: PpuState, t: PpuState, i: int, count: int)
    requires
        s.lcdc == t.lcdc,
        s.ly == t.ly,
        s.oam == t.oam,
        s.vram == t.vram,
    ensures
        s.sprites_hidden_from(i, count) == t.sprites_hidden_from(i, count),
    decreases 40 - i,
{
    if i >= 40 || count >= 10 {
    } else {
        assert(s.sprite_visible(i) == t.sprite_visible(i));
        assert forall|x: int| 0 <= x < 8 implies s.sprite_pixel_shown(i, x) == t.sprite_pixel_shown(i, x) by {}
        lemma_sprites_hidden_same(s, t, i + 1, count + 1);
        lemma_sprites_hidden_same(s, t, i + 1, count);
    }
}

impl View for PPU {
    type V = PpuState;

    closed spec fn view(&self) -> PpuState {
        PpuState {
            lcdc: self.lcdc,
            stat: self.stat,
            scy: self.scy,
            scx: self.scx,
            ly: self.ly,
            lyc: self.lyc,
            dma: self.dma,
            bgp: self.bgp,
            obp0: self.obp0,
            obp1: self.obp1,
            wy: self.wy,
            wx: self.wx,
            vram: self.vram@,
            oam: self.oam@,
            dma_pending: self.dma_transfer_enabled,
            screen: self.screen_buffer@,
            mode: self.mode,
            cycles: self.cycles,
            frame_ready: self.frame_ready,
        }
    }
}

impl PPU {
    pub fn new() -> (ppu: Self)
        ensures
            ppu@ == (PpuState {
                lcdc: 0,
                stat: 0,
                scy: 0,
                scx: 0,
                ly: 0,
                lyc: 0,
                dma: 0,
                bgp: 0,
                obp0: 0,
                obp1: 0,
                wy: 0,
                wx: 0,
                vram: Seq::new(8192, |i: int| 0u8),
                oam: Seq::new(160, |i: int| 0u8),
                dma_pending: false,
                screen: Seq::new(23040, |i: int| 0u32),
                mode: MODE_OAM_SEARCH,
                cycles: 0,
                frame_ready: false,
            }),
    {
        let ppu = PPU {
            lcdc: 0,
            stat: 0,
            scy: 0,
            scx: 0,
            ly: 0,
            lyc: 0,
            dma: 0,
            bgp: 0,
            obp0: 0,
            obp1: 0,
            wy: 0,
            wx: 0,
            vram: [0;8192],
            oam: [0;160],
            dma_transfer_enabled: false,
            screen_buffer: [0;23040],
            mode: 2,
            cycles: 0,
            frame_ready: false,
        };
        assert(ppu.vram@ =~= Seq::new(8192, |i: int| 0u8));
        assert(ppu.oam@ =~= Seq::new(160, |i: int| 0u8));
        assert(ppu.screen_buffer@ =~= Seq::new(23040, |i: int| 0u32));
        ppu
    }

    /// The screen has 23040 pixels and the memories have their sizes.
    pub proof fn lemma_sizes(&self)
        ensures
            self@.screen.len() == 23040,
            self@.vram.len() == 8192,
            self@.oam.len() == 160,
    {
    }

    pub fn read_byte(&self, address: u16) -> (r: u8)
        requires
            is_ppu_address(address),
        ensures
            r == self@.register(address),
    {
        match address {
            0x8000..=0x9FFF => self.vram[address as usize - 0x8000],
            0xFE00..=0xFE9F => self.oam[address as usize - 0xFE00],
            0xFF40 => self.lcdc,
            0xFF41 => self.stat,
            0xFF42 => self.scy,
            0xFF43 => self.scx,
            0xFF44 => self.ly,
            0xFF45 => self.lyc,
            0xFF46 => self.dma,
            0xFF47 => self.bgp,
            0xFF48 => self.obp0,
            0xFF49 => self.obp1,
            0xFF4A => self.wy,
            _ => self.wx,
        }
    }

    pub fn write_byte(&mut self, address: u16, value: u8)
        requires
            is_ppu_address(address),
        ensures
            final(self)@ == old(self)@.written(address, value),
    {
        match address {
            0x8000..=0x9FFF => self.vram[address as usize - 0x8000] = value,
            0xFE00..=0xFE9F => self.oam[address as usize - 0xFE00] = value,
            0xFF40 => self.lcdc = value,
            0xFF41 => self.stat = value,
            0xFF42 => self.scy = value,
            0xFF43 => self.scx = value,
            0xFF44 => self.ly = value,
            0xFF45 => self.lyc = value,
            0xFF46 => {
                self.dma = value;
                self.dma_transfer_enabled = true;
            },
            0xFF47 => self.bgp = value,
            0xFF48 => self.obp0 = value,
            0xFF49 => self.obp1 = value,
            0xFF4A => self.wy = value,
            _ => self.wx = value,
        }
    }

    pub fn is_frame_ready(&self) -> (ready: bool)
        ensures
            ready == self@.frame_ready,
    {
        self.frame_ready
    }

    pub fn reset_frame_ready(&mut self)
        ensures
            final(self)@ == (PpuState { frame_ready: false, ..old(self)@ }),
    {
        self.frame_ready = false;
    }

    pub fn is_display_enabled(&self) -> (enabled: bool)
        ensures
            enabled == self@.display_enabled(),
    {
        (self.lcdc & 0x80) != 0
    }

    fn is_background_enabled(&self) -> (enabled: bool)
        ensures
            enabled == self@.background_enabled(),
    {
        self.lcdc & 0x01 != 0
    }

    /// Whether a transfer into OAM has been asked for.
    pub fn is_dma_pending(&self) -> (pending: bool)
        ensures
            pending == self@.dma_pending,
    {
        self.dma_transfer_enabled
    }

    /// The page (upper byte of the address) that a transfer copies from.
    pub fn dma_source_page(&self) -> (page: u8)
        ensures
            page == self@.dma,
    {
        self.dma
    }

    /// Copies the screen out, row by row.
    pub fn get_screen_buffer(&self) -> (buffer: Vec<u32>)
        ensures
            buffer@ == self@.screen,
    {
        let mut buffer: Vec<u32> = Vec::with_capacity(160 * 144);
        let mut k: usize = 0;
        while k < SCREEN_PIXELS
            invariant
                k <= SCREEN_PIXELS,
                buffer@ == self.screen_buffer@.take(k as int),
            decreases SCREEN_PIXELS - k,
        {
            buffer.push(self.screen_buffer[k]);
            k += 1;
            assert(buffer@ =~= self.screen_buffer@.take(k as int));
        }
        assert(self.screen_buffer@.take(23040) =~= self.screen_buffer@);
        buffer
    }

    /// Finishes a transfer into OAM, if one was asked for, with the 160
    /// bytes read from the source page.
    pub fn dma_transfer(&mut self, block: &Vec<u8>)
        requires
            old(self)@.dma_pending ==> block.len() == 160,
        ensures
            final(self)@ == old(self)@.transferred(block@),
    {
        if self.dma_transfer_enabled {
            let mut i: usize = 0;
            while i < 0xA0
                invariant
                    i <= 0xA0,
                    block.len() == 160,
                    self@ == (PpuState {
                        oam: self@.oam,
                        ..old(self)@
                    }),
                    forall|j: int| 0 <= j < i ==> self@.oam[j] == block@[j],
                decreases 0xA0 - i,
            {
                self.oam[i] = block[i];
                i += 1;
            }
            assert(self@.oam =~= block@);
        }
        self.dma_transfer_enabled = false;
    }
    fn get_bg_color(&self, color_index: u8) -> (color: u32)
        requires
            color_index < 4,
        ensures
            color == shade_color(palette_shade(self@.bgp, color_index)),
    {
        let palette = self.bgp;
        let shade = (palette >> (color_index * 2)) & 0x03;
        match shade {
            0 => 0x00FFFFFF,  // White
            1 => 0x00AAAAAA,  // Light grey
            2 => 0x00555555,  // Dark grey
            _ => 0x00000000,  // Black
        }
    }

    fn get_sprite_color(&self, color_index: u8, palette_index: u8) -> (color: u32)
        requires
            color_index < 4,
        ensures
            color == shade_color(
                palette_shade(
                    if palette_index == 0 {
                        self@.obp0
                    } else {
                        self@.obp1
                    },
                    color_index,
                ),
            ),
    {
        let palette = if palette_index == 0 {
            self.obp0
        } else {
            self.obp1
        };
        let shade = (palette >> (color_index * 2)) & 0x03;
        match shade {
            0 => 0x00FFFFFF,  // White
            1 => 0x00AAAAAA,  // Light grey
            2 => 0x00555555,  // Dark grey
            _ => 0x00000000,  // Black
        }
    }

    /// The colour number of one pixel of a tile: `column` 0 is the leftmost.
    fn get_tile_data(&self, tile_data_address: u16, row: u8, col: u8) -> (number: u8)
        requires
            0x8000 <= tile_data_address,
            tile_data_address + row * 2 + 1 <= 0x9FFF,
            col < 8,
        ensures
            number == color_number(
                self@.vram_at(tile_data_address + row * 2),
                self@.vram_at(tile_data_address + row * 2 + 1),
                (7 - col) as u8,
            ),
            number < 4,
    {
        let byte1 = self.read_byte(tile_data_address + row as u16 * 2);
        let byte2 = self.read_byte(tile_data_address + row as u16 * 2 + 1);
        let bit = 7 - col;
        let low_bit = (byte1 >> bit) & 1;
        let high_bit = (byte2 >> bit) & 1;
        proof {
            lemma_color_number(byte1, byte2, bit);
        }
        (high_bit << 1) | low_bit
    }

    /// The colour of pixel `column` of row `row` of a background or window
    /// tile.
    fn tile_pixel_color(&self, tile_data_start: usize, tile_index: u8, row: u8, column: u8) -> (color:
        u32)
        requires
            tile_data_start == self@.tile_data_start(),
            row < 8,
            column < 8,
        ensures
            color == self@.tile_pixel(tile_index, row as int, column as int),
    {
        let tile_data_address: usize = if tile_data_start == 0x8800 {
            let shifted: usize = if tile_index < 128 {
                tile_index as usize + 128
            } else {
                tile_index as usize - 128
            };
            tile_data_start + shifted * 16
        } else {
            tile_data_start + (tile_index as usize * 16)
        };
        let color_index = self.get_tile_data(tile_data_address as u16, row, column);
        self.get_bg_color(color_index)
    }

    pub fn render_background(&mut self)
        requires
            old(self)@.ly < 144,
        ensures
            final(self)@ == old(self)@.background_drawn(),
    {
        let ghost s0 = self@;
        let tile_map_start: usize = if self.lcdc & 0x08 != 0 {
            0x9C00
        } else {
            0x9800
        };
        let tile_data_start: usize = if self.lcdc & 0x10 != 0 {
            0x8000
        } else {
            0x8800
        };
        let y_offset: u8 = ((self.ly as u16 + self.scy as u16) % 256) as u8;
        let line_start: usize = self.ly as usize * 160;
        let mut lx: u16 = 0;
        while lx < 160
            invariant
                lx <= 160,
                s0.ly < 144,
                line_start == s0.ly * 160,
                self@ == (PpuState { screen: self@.screen, ..s0 }),
                self@.screen.len() == 23040,
                tile_data_start == s0.tile_data_start(),
                tile_map_start == (if s0.lcdc & 0x08 != 0 {
                    0x9C00int
                } else {
                    0x9800int
                }),
                y_offset == (s0.ly + s0.scy) % 256,
                forall|k: int|
                    0 <= k < 23040 ==> #[trigger] self@.screen[k] == if line_start <= k < line_start
                        + lx {
                        s0.background_pixel(k - line_start)
                    } else {
                        s0.screen[k]
                    },
            decreases 160 - lx,
        {
            let x_offset: u8 = ((lx + self.scx as u16) % 256) as u8;
            let tile_col = x_offset / 8;
            let tile_row = y_offset / 8;
            let tile_index = self.read_byte(
                (tile_map_start + (tile_row as usize * 32) + tile_col as usize) as u16,
            );
            let color = self.tile_pixel_color(tile_data_start, tile_index, y_offset % 8, x_offset % 8);
            self.screen_buffer[line_start + lx as usize] = color;
            lx += 1;
        }
        assert(self@.screen =~= s0.background_drawn().screen);
    }

    fn render_window(&mut self)
        requires
            old(self)@.ly < 144 || !(old(self)@.window_enabled() && old(self)@.ly >= old(self)@.wy
                && old(self)@.wx <= 166),
        ensures
            final(self)@ == old(self)@.window_drawn(),
    {
        let ghost s0 = self@;
        if self.lcdc & 0x20 != 0 && self.ly >= self.wy {
            let tile_map_start: usize = if self.lcdc & 0x40 != 0 {
                0x9C00
            } else {
                0x9800
            };
            let tile_data_start: usize = if self.lcdc & 0x10 != 0 {
                0x8000
            } else {
                0x8800
            };
            let window_y = self.ly - self.wy;
            let line_start: usize = self.ly as usize * 160;
            let mut lx: u8 = 0;
            while lx < 160
                invariant
                    lx <= 160,
                    s0.ly < 144 || s0.wx > 166,
                    s0.window_enabled(),
                    s0.ly >= s0.wy,
                    line_start == s0.ly * 160,
                    self@ == (PpuState { screen: self@.screen, ..s0 }),
                    self@.screen.len() == 23040,
                    tile_data_start == s0.tile_data_start(),
                    tile_map_start == (if s0.lcdc & 0x40 != 0 {
                        0x9C00int
                    } else {
                        0x9800int
                    }),
                    window_y == s0.ly - s0.wy,
                    forall|k: int|
                        0 <= k < 23040 ==> #[trigger] self@.screen[k] == if line_start <= k
                            < line_start + lx && s0.window_covers(k - line_start) {
                            s0.window_pixel(k - line_start)
                        } else {
                            s0.screen[k]
                        },
                decreases 160 - lx,
            {
                if lx + 7 >= self.wx {
                    let window_x = lx + 7 - self.wx;
                    let tile_col = window_x / 8;
                    let tile_row = window_y / 8;
                    let tile_index_address = tile_map_start + (tile_row as usize * 32)
                        + tile_col as usize;
                    let tile_index = self.read_byte(tile_index_address as u16);
                    let color = self.tile_pixel_color(
                        tile_data_start,
                        tile_index,
                        window_y % 8,
                        window_x % 8,
                    );
                    self.screen_buffer[line_start + lx as usize] = color;
                }
                lx += 1;
            }
            assert(self@.screen =~= s0.window_drawn().screen);
        } else {
            assert(self@.screen =~= s0.window_drawn().screen);
        }
    }

    fn render_sprites(&mut self)
        requires
            old(self)@.ly < 144 || old(self)@.sprites_hidden_from(0, 0),
        ensures
            final(self)@ == old(self)@.sprites_drawn(),
    {
        let ghost s0 = self@;
        let mut sprite_count: u8 = 0;
        let mut sprite_index: usize = 0;
        while sprite_index < 40 && sprite_count < 10
            invariant
                sprite_index <= 40,
                sprite_count <= 10,
                self@ == (PpuState { screen: self@.screen, ..s0 }),
                self@.screen.len() == 23040,
                s0.sprites_drawn_from(self@.screen, sprite_index as int, sprite_count as int)
                    == s0.sprites_drawn_from(s0.screen, 0, 0),
                s0.ly >= 144 ==> s0.sprites_hidden_from(sprite_index as int, sprite_count as int),
            decreases 40 - sprite_index,
        {
            let sprite_y: i16 = self.oam[sprite_index * 4] as i16 - 16;
            let sprite_x: i16 = self.oam[sprite_index * 4 + 1] as i16 - 8;
            let tile_index = self.oam[sprite_index * 4 + 2];
            let attributes = self.oam[sprite_index * 4 + 3];
            let sprite_size: u8 = if self.lcdc & 0x04 != 0 {
                16
            } else {
                8
            };
            if sprite_y <= self.ly as i16 && (sprite_y + sprite_size as i16) > self.ly as i16 {
                let y_flip = attributes & 0x40 != 0;
                let x_flip = attributes & 0x20 != 0;
                let palette_index: u8 = if attributes & 0x10 != 0 {
                    1
                } else {
                    0
                };
                let offset: u8 = (self.ly as i16 - sprite_y) as u8;
                let sprite_row: u8 = if y_flip {
                    sprite_size - 1 - offset
                } else {
                    offset
                };
                let tile_data_address: u16 = if self.lcdc & 0x10 == 0 && tile_index >= 0x80 {
                    0x8800 + (tile_index as u16 - 128) * 16
                } else {
                    0x8000 + (tile_index as u16 * 16)
                };
                let ghost i = sprite_index as int;
                let ghost screen_start = self@.screen;
                let mut lx: u8 = 0;
                while lx < 8
                    invariant
                        lx <= 8,
                        i == sprite_index,
                        0 <= i < 40,
                        s0.sprite_visible(i),
                        self@ == (PpuState { screen: self@.screen, ..s0 }),
                        self@.screen.len() == 23040,
                        s0.ly >= 144 ==> forall|x: int| 0 <= x < 8 ==> !#[trigger] s0.sprite_pixel_shown(i, x),
                        s0.sprite_drawn_from(self@.screen, i, lx as int) == s0.sprite_drawn_from(
                            screen_start,
                            i,
                            0,
                        ),
                        sprite_x == s0.sprite_x(i),
                        attributes == s0.oam[i * 4 + 3],
                        x_flip == (attributes & 0x20 != 0),
                        palette_index == (if attributes & 0x10 != 0 { 1u8 } else { 0u8 }),
                        tile_data_address == s0.sprite_tile_address(i),
                        sprite_row as int == (if attributes & 0x40 != 0 {
                            s0.sprite_height() - 1 - (s0.ly - s0.sprite_y(i))
                        } else {
                            s0.ly - s0.sprite_y(i)
                        }),
                    decreases 8 - lx,
                {
                    let sprite_col = if x_flip {
                        7 - lx
                    } else {
                        lx
                    };
                    let tile_line = self.get_tile_data(tile_data_address, sprite_row, sprite_col);
                    if tile_line != 0 {
                        let color = self.get_sprite_color(tile_line, palette_index);
                        let pixel_x: i16 = sprite_x + lx as i16;
                        if pixel_x >= 0 && pixel_x < 160 {
                            assert(s0.sprite_pixel_shown(i, lx as int));
                            let priority = attributes & 0x80 == 0;
                            let k: usize = self.ly as usize * 160 + pixel_x as usize;
                            let bg_pixel = self.screen_buffer[k];
                            if priority || bg_pixel == 0x00FFFFFF {
                                self.screen_buffer[k] = color;
                            }
                        }
                    }
                    lx += 1;
                }
                sprite_count += 1;
            }
            sprite_index += 1;
        }
    }

    pub fn render_scanline(&mut self)
        requires
            old(self)@.scanline_fits(),
        ensures
            final(self)@ == old(self)@.scanline_rendered(),
    {
        if !self.is_display_enabled() {
            return ;
        }
        let ghost s0 = self@;
        if self.is_background_enabled() {
            self.render_background();
        }
        self.render_window();
        proof {
            lemma_sprites_hidden_same(self@, s0, 0, 0);
        }
        self.render_sprites();
    }

    /// Counts `cycles` more cycles through the modes of the scanline and
    /// tells which interrupts are to be requested.
    pub fn tick(&mut self, cycles: u16) -> (requests: u8)
        requires
            old(self)@.can_tick(cycles),
        ensures
            final(self)@ == old(self)@.ticked(cycles),
            requests == old(self)@.tick_requests(cycles),
    {
        let ghost s0 = self@;
        self.cycles += cycles as u32;
        let mut requests: u8 = 0;
        if self.mode == 2 {
            // OAM Search
            if self.cycles >= 80 {
                self.cycles -= 80;
                self.stat |= 0b11;
                self.mode = 3;
            }
        } else if self.mode == 3 {
            // Access VRAM
            if self.cycles >= 170 {
                self.cycles -= 170;
                let on_hblank: u8 = if self.stat & 0x08 != 0 {
                    INTERRUPT_LCD_STAT
                } else {
                    0
                };
                let mut on_coincidence: u8 = 0;
                let ly_coincidence = self.ly == self.lyc;
                if ly_coincidence {
                    self.stat |= 0b100;
                    if self.stat & 0x40 != 0 {
                        on_coincidence = INTERRUPT_LCD_STAT;
                    }
                } else {
                    self.stat &= !0b100;
                }
                proof {
                    let st = s0.stat;
                    assert((st | 0b100u8) & 0x40 == st & 0x40) by (bit_vector);
                }
                requests = on_hblank | on_coincidence;
                self.stat &= !0b11;
                self.mode = 0;
            }
        } else if self.mode == 0 {
            // H-Blank
            if self.cycles >= 206 {
                self.cycles -= 206;
                proof {
                    lemma_sprites_hidden_same(self@, s0, 0, 0);
                }
                self.render_scanline();
                self.ly += 1;
                if self.ly == 144 {
                    self.stat |= 0b01;
                    self.stat &= !0b10;
                    self.mode = 1;
                    requests = INTERRUPT_VBLANK;
                } else {
                    self.stat |= 0b10;
                    self.stat &= !0b01;
                    self.mode = 2;
                }
            }
        } else {
            // V-Blank
            if self.cycles >= 456 {
                self.cycles -= 456;
                self.ly += 1;
                if self.ly > 153 {
                    self.ly = 0;
                    self.stat |= 0b10;
                    self.stat &= !0b01;
                    self.mode = 2;
                    self.frame_ready = true;
                }
            }
        }
        requests
    }
    /// Whether sprite `i` has a row on the current line.
    fn is_sprite_visible(&self, i: usize) -> (visible: bool)
        requires
            i < 40,
        ensures
            visible == self@.sprite_visible(i as int),
    {
        let sprite_y: i16 = self.oam[i * 4] as i16 - 16;
        let sprite_size: i16 = if self.lcdc & 0x04 != 0 {
            16
        } else {
            8
        };
        sprite_y <= self.ly as i16 && sprite_y + sprite_size > self.ly as i16
    }

    /// Whether pixel `x` of sprite `i`, which has a row on the current
    /// line, is opaque and on the screen.
    fn is_sprite_pixel_shown(&self, i: usize, x: u8) -> (shown: bool)
        requires
            i < 40,
            x < 8,
            self@.sprite_visible(i as int),
        ensures
            shown == self@.sprite_pixel_shown(i as int, x as int),
    {
        let sprite_y: i16 = self.oam[i * 4] as i16 - 16;
        let sprite_x: i16 = self.oam[i * 4 + 1] as i16 - 8;
        let tile_index = self.oam[i * 4 + 2];
        let attributes = self.oam[i * 4 + 3];
        let sprite_size: u8 = if self.lcdc & 0x04 != 0 {
            16
        } else {
            8
        };
        let offset: u8 = (self.ly as i16 - sprite_y) as u8;
        let sprite_row: u8 = if attributes & 0x40 != 0 {
            sprite_size - 1 - offset
        } else {
            offset
        };
        let sprite_col: u8 = if attributes & 0x20 != 0 {
            7 - x
        } else {
            x
        };
        let tile_data_address: u16 = if self.lcdc & 0x10 == 0 && tile_index >= 0x80 {
            0x8800 + (tile_index as u16 - 128) * 16
        } else {
            0x8000 + (tile_index as u16 * 16)
        };
        let number = self.get_tile_data(tile_data_address, sprite_row, sprite_col);
        let pixel_x: i16 = sprite_x + x as i16;
        number != 0 && pixel_x >= 0 && pixel_x < 160
    }

    /// Whether none of the sprites that would be drawn on the current line
    /// shows a pixel.
    fn are_sprites_hidden(&self) -> (hidden: bool)
        ensures
            hidden == self@.sprites_hidden_from(0, 0),
    {
        let mut sprite_index: usize = 0;
        let mut sprite_count: u8 = 0;
        while sprite_index < 40 && sprite_count < 10
            invariant
                sprite_index <= 40,
                sprite_count <= 10,
                self@.sprites_hidden_from(0, 0) == self@.sprites_hidden_from(
                    sprite_index as int,
                    sprite_count as int,
                ),
            decreases 40 - sprite_index,
        {
            if self.is_sprite_visible(sprite_index) {
                let mut x: u8 = 0;
                while x < 8
                    invariant
                        x <= 8,
                        sprite_index < 40,
                        sprite_count < 10,
                        self@.sprites_hidden_from(0, 0) == self@.sprites_hidden_from(
                            sprite_index as int,
                            sprite_count as int,
                        ),
                        self@.sprite_visible(sprite_index as int),
                        forall|j: int| 0 <= j < x ==> !#[trigger] self@.sprite_pixel_shown(sprite_index as int, j),
                    decreases 8 - x,
                {
                    if self.is_sprite_pixel_shown(sprite_index, x) {
                        assert(self@.sprite_pixel_shown(sprite_index as int, x as int));
                        return false;
                    }
                    x += 1;
                }
                sprite_count += 1;
            }
            sprite_index += 1;
        }
        true
    }

    /// Whether rendering the current line stays on the screen.
    fn scanline_fits(&self) -> (fits: bool)
        ensures
            fits == self@.scanline_fits(),
    {
        !self.is_display_enabled() || self.ly < 144 || (!self.is_background_enabled() && !(self.lcdc
            & 0x20 != 0 && self.ly >= self.wy && self.wx <= 166) && self.are_sprites_hidden())
    }

    /// Whether counting `cycles` more cycles completes.
    pub fn can_tick(&self, cycles: u16) -> (ok: bool)
        ensures
            ok == self@.can_tick(cycles),
    {
        let counted: u64 = self.cycles as u64 + cycles as u64;
        if counted > 0xFFFF_FFFF || self.mode > 3 {
            false
        } else if self.mode == 0 && counted >= 206 {
            self.ly < 255 && self.scanline_fits()
        } else if self.mode == 1 && counted >= 456 {
            self.ly < 255
        } else {
            true
        }
    }
}

} // verus!
