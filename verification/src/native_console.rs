//! Native console after boot services have exited: a serial console and a
//! framebuffer console behind one driver interface, and the manager that
//! writes to whichever is active. Drivers queue the port writes and
//! framebuffer operations their output takes; the platform performs them.

use vstd::prelude::*;
use vstd::string::StringSliceAdditionalSpecFns;

verus! {

/// Kind of console in use.
#[derive(PartialEq, Eq, Structural, Debug, Clone, Copy)]
pub enum ConsoleType {
    /// No console available.
    Absent,
    /// Framebuffer console.
    Framebuffer,
    /// Serial console.
    Serial,
}

/// Console errors.
#[derive(PartialEq, Eq, Structural, Debug, Clone, Copy)]
pub enum ConsoleError {
    /// Console not available.
    NotAvailable,
    /// Buffer full.
    BufferFull,
    /// I/O error.
    IOError,
}

/// An operation a console driver asks of the platform.
#[derive(PartialEq, Eq, Structural, Debug, Clone, Copy)]
pub enum ConsoleOp {
    /// Write `value` to I/O port `port`.
    PortOut { port: u16, value: u8 },
    /// Wait until the serial port at `port` can transmit, then send `byte`.
    SerialTransmit { port: u16, byte: u8 },
    /// Zero the first `size` bytes of the framebuffer.
    FbClear { size: usize },
    /// Move the framebuffer up by `shift` bytes (`size` bytes move) and
    /// zero the `shift` bytes freed at the bottom.
    FbScroll { shift: usize, size: usize },
}

/// A console driver.
pub trait ConsoleDriver {
    /// Whether the driver's configuration lets it run.
    spec fn ready(&self) -> bool;

    /// The operations the driver has queued.
    spec fn queued(&self) -> Seq<ConsoleOp>;

    /// Writes data to the console.
    fn write(&mut self, data: &[u8]) -> (r: Result<(), ConsoleError>)
        requires
            old(self).ready(),
        ensures
            final(self).ready(),
            final(self).queued().len() >= old(self).queued().len(),
            final(self).queued().subrange(0, old(self).queued().len() as int) == old(self).queued(),
    ;

    /// Flushes buffered output.
    fn flush(&mut self) -> (r: Result<(), ConsoleError>)
        ensures
            final(self).ready() == old(self).ready(),
            final(self).queued() == old(self).queued(),
    ;

    /// Whether the console can be used.
    fn is_available(&self) -> bool;
}

/// Serial port configuration.
#[derive(PartialEq, Eq, Structural, Debug, Clone, Copy)]
pub struct SerialConfig {
    /// Base I/O port.
    pub base: usize,
    /// Baud rate divisor.
    pub baud_divisor: u16,
    /// Data bits.
    pub data_bits: u8,
    /// Stop bits.
    pub stop_bits: u8,
    /// Parity (0 none, 1 odd, 2 even).
    pub parity: u8,
}

impl Default for SerialConfig {
    /// COM1 at 9600 baud, 8 data bits, one stop bit, no parity.
    fn default() -> (r: Self)
        ensures
            r == (SerialConfig { base: 0x3F8, baud_divisor: 12, data_bits: 8, stop_bits: 1, parity: 0 }),
    {
        SerialConfig { base: 0x3F8, baud_divisor: 12, data_bits: 8, stop_bits: 1, parity: 0 }
    }
}

/// The I/O port a configured base gives (its low 16 bits).
pub open spec fn serial_port(config: SerialConfig) -> int {
    config.base as int % 0x1_0000
}

/// The port writes that set a serial port up: interrupts off, divisor
/// latch on, the divisor's low and high bytes, 8N1, FIFO on, modem
/// control.
pub open spec fn serial_init_ops(port: u16, divisor: u16) -> Seq<ConsoleOp> {
    seq![
        ConsoleOp::PortOut { port: (port + 1) as u16, value: 0x00 },
        ConsoleOp::PortOut { port: (port + 3) as u16, value: 0x80 },
        ConsoleOp::PortOut { port, value: (divisor % 0x100) as u8 },
        ConsoleOp::PortOut { port: (port + 1) as u16, value: (divisor / 0x100) as u8 },
        ConsoleOp::PortOut { port: (port + 3) as u16, value: 0x03 },
        ConsoleOp::PortOut { port: (port + 2) as u16, value: 0xC7 },
        ConsoleOp::PortOut { port: (port + 4) as u16, value: 0x0B },
    ]
}

/// The transmissions of data bytes on a serial port.
pub open spec fn transmit_ops(port: u16, data: Seq<u8>) -> Seq<ConsoleOp> {
    data.map_values(|b: u8| ConsoleOp::SerialTransmit { port, byte: b })
}

/// A serial console.
pub struct SerialConsole {
    pub config: SerialConfig,
    pub initialized: bool,
    pub pending: Vec<ConsoleOp>,
}

impl SerialConsole {
    /// A console for a port, not yet set up.
    pub fn new(config: SerialConfig) -> (r: Self)
        ensures
            r.config == config,
            !r.initialized,
            r.pending@ == Seq::<ConsoleOp>::empty(),
    {
        SerialConsole { config, initialized: false, pending: Vec::new() }
    }

    /// Sets the port up, once.
    fn init(&mut self)
        requires
            serial_port(old(self).config) + 5 <= u16::MAX,
        ensures
            final(self).config == old(self).config,
            final(self).initialized,
            final(self).pending@ == old(self).pending@ + (if old(self).initialized {
                Seq::empty()
            } else {
                serial_init_ops(serial_port(old(self).config) as u16, old(self).config.baud_divisor)
            }),
    {
        if self.initialized {
            assert(self.pending@ + Seq::<ConsoleOp>::empty() =~= self.pending@);
            return;
        }
        let b = self.config.base;
        let base = #[verifier::truncate] (b as u16);
        proof {
            crate::bits::lemma_low_u16(b, base);
        }
        let d = self.config.baud_divisor;
        let lo = (d & 0xFF) as u8;
        let hi = (d >> 8) as u8;
        proof {
            crate::bits::lemma_u16_bytes();
        }
        assert(d & 0xFF == d % 0x100);
        assert(d >> 8 == d / 0x100);
        let ghost p0 = self.pending@;
        self.pending.push(ConsoleOp::PortOut { port: base + 1, value: 0x00 });
        self.pending.push(ConsoleOp::PortOut { port: base + 3, value: 0x80 });
        self.pending.push(ConsoleOp::PortOut { port: base, value: lo });
        self.pending.push(ConsoleOp::PortOut { port: base + 1, value: hi });
        self.pending.push(ConsoleOp::PortOut { port: base + 3, value: 0x03 });
        self.pending.push(ConsoleOp::PortOut { port: base + 2, value: 0xC7 });
        self.pending.push(ConsoleOp::PortOut { port: base + 4, value: 0x0B });
        self.initialized = true;
        assert(self.pending@ =~= p0 + serial_init_ops(base, d));
    }

    /// The port of the line status register.
    pub fn line_status_port(&self) -> (r: u16)
        requires
            serial_port(self.config) + 5 <= u16::MAX,
        ensures
            r == serial_port(self.config) + 5,
    {
        let b = self.config.base;
        let base = #[verifier::truncate] (b as u16);
        proof {
            crate::bits::lemma_low_u16(b, base);
        }
        base + 5
    }

    /// Whether a line status value shows the transmitter ready.
    pub fn is_transmit_ready(&self, line_status: u8) -> (r: bool)
        ensures
            r == (line_status & 0x20 != 0),
    {
        (line_status & 0x20) != 0
    }
}

impl ConsoleDriver for SerialConsole {
    open spec fn ready(&self) -> bool {
        serial_port(self.config) + 5 <= u16::MAX
    }

    open spec fn queued(&self) -> Seq<ConsoleOp> {
        self.pending@
    }

    /// Sets the port up on first use, then transmits every byte.
    fn write(&mut self, data: &[u8]) -> (r: Result<(), ConsoleError>)
        ensures
            r is Ok,
            final(self).initialized,
            final(self).config == old(self).config,
            final(self).pending@ == old(self).pending@ + (if old(self).initialized {
                Seq::empty()
            } else {
                serial_init_ops(serial_port(old(self).config) as u16, old(self).config.baud_divisor)
            }) + transmit_ops(serial_port(old(self).config) as u16, data@),
    {
        if !self.initialized {
            self.init();
        } else {
            assert(self.pending@ + Seq::<ConsoleOp>::empty() =~= self.pending@);
        }
        let ghost p1 = self.pending@;
        let b = self.config.base;
        let base = #[verifier::truncate] (b as u16);
        proof {
            crate::bits::lemma_low_u16(b, base);
        }
        let mut i: usize = 0;
        while i < data.len()
            invariant
                self.config == old(self).config,
                self.initialized,
                base == serial_port(self.config),
                0 <= i <= data@.len(),
                self.pending@ == p1 + transmit_ops(base, data@.subrange(0, i as int)),
            decreases data@.len() - i,
        {
            self.pending.push(ConsoleOp::SerialTransmit { port: base, byte: data[i] });
            i = i + 1;
            assert(transmit_ops(base, data@.subrange(0, i as int)) =~= transmit_ops(
                base,
                data@.subrange(0, i - 1),
            ).push(ConsoleOp::SerialTransmit { port: base, byte: data@[i - 1] }));
        }
        assert(data@.subrange(0, data@.len() as int) =~= data@);
        Ok(())
    }

    /// Serial output leaves at once: nothing to flush.
    fn flush(&mut self) -> (r: Result<(), ConsoleError>)
        ensures
            r is Ok,
            *final(self) == *old(self),
    {
        Ok(())
    }

    /// A serial console is always there.
    fn is_available(&self) -> (r: bool)
        ensures
            r,
    {
        true
    }
}

/// Pixel format of a framebuffer.
#[derive(PartialEq, Eq, Structural, Debug, Clone, Copy)]
pub enum PixelFormat {
    RGB,
    BGR,
    Unknown,
}

/// Framebuffer configuration.
#[derive(PartialEq, Eq, Structural, Debug, Clone, Copy)]
pub struct FramebufferConfig {
    /// Address of the framebuffer.
    pub address: u64,
    /// Width in pixels.
    pub width: u32,
    /// Height in pixels.
    pub height: u32,
    /// Stride in pixels.
    pub stride: u32,
    /// Bytes per pixel.
    pub bytes_per_pixel: u32,
    /// Pixel format.
    pub format: PixelFormat,
}

impl Default for FramebufferConfig {
    /// The legacy text buffer: 80x25 cells of 2 bytes at 0xB8000.
    fn default() -> (r: Self)
        ensures
            r == (FramebufferConfig {
                address: 0xB8000,
                width: 80,
                height: 25,
                stride: 80,
                bytes_per_pixel: 2,
                format: PixelFormat::Unknown,
            }),
    {
        FramebufferConfig {
            address: 0xB8000,
            width: 80,
            height: 25,
            stride: 80,
            bytes_per_pixel: 2,
            format: PixelFormat::Unknown,
        }
    }
}

/// Bytes of one pixel row.
pub open spec fn fb_row_size(c: FramebufferConfig) -> int {
    c.stride * c.bytes_per_pixel
}

/// A framebuffer console: its configuration, whether it was cleared, the
/// text cursor, and the operations it queued.
pub struct FramebufferConsole {
    pub config: FramebufferConfig,
    pub initialized: bool,
    pub cursor_x: u32,
    pub cursor_y: u32,
    pub pending: Vec<ConsoleOp>,
}

/// The console's cursor and queue after one character.
pub open spec fn fb_char(c: FramebufferConfig, x: u32, y: u32, ch: char) -> (u32, u32, Seq<ConsoleOp>) {
    let scroll = ConsoleOp::FbScroll {
        shift: (fb_row_size(c) * 16) as usize,
        size: ((c.height - 16) * fb_row_size(c)) as usize,
    };
    if ch == '\r' {
        (0, y, Seq::empty())
    } else if ch == '\n' {
        if y >= c.height - 1 {
            (0, y, seq![scroll])
        } else {
            (0, (y + 1) as u32, Seq::empty())
        }
    } else if (ch as u32) < 128 {
        if x >= c.width - 8 {
            if y >= c.height - 16 {
                (0, y, seq![scroll])
            } else {
                (0, (y + 1) as u32, Seq::empty())
            }
        } else {
            ((x + 1) as u32, y, Seq::empty())
        }
    } else {
        (x, y, Seq::empty())
    }
}

/// The console's cursor and queue after characters in turn.
pub open spec fn fb_chars(c: FramebufferConfig, x: u32, y: u32, s: Seq<char>) -> (u32, u32, Seq<ConsoleOp>)
    decreases s.len(),
{
    if s.len() == 0 {
        (x, y, Seq::empty())
    } else {
        let (x1, y1, ops1) = fb_char(c, x, y, s[0]);
        let (x2, y2, ops2) = fb_chars(c, x1, y1, s.drop_first());
        (x2, y2, ops1 + ops2)
    }
}

/// Whether a framebuffer configuration fits the console's arithmetic: at
/// least one text cell (8x16), and the screen's byte size within `u32`.
pub open spec fn fb_config_ok(c: FramebufferConfig) -> bool {
    &&& c.width >= 8
    &&& c.height >= 16
    &&& c.height * c.stride <= u32::MAX
    &&& fb_screen_size(c) <= u32::MAX
    &&& fb_row_size(c) <= u32::MAX
    &&& fb_row_size(c) * 16 <= u32::MAX
}

/// Bytes of the whole screen.
pub open spec fn fb_screen_size(c: FramebufferConfig) -> int {
    c.height * c.stride * c.bytes_per_pixel
}

impl FramebufferConsole {
    /// A console on a framebuffer, not yet cleared.
    pub fn new(config: FramebufferConfig) -> (r: Self)
        ensures
            r.config == config,
            !r.initialized,
            r.cursor_x == 0,
            r.cursor_y == 0,
            r.pending@ == Seq::<ConsoleOp>::empty(),
    {
        FramebufferConsole { config, initialized: false, cursor_x: 0, cursor_y: 0, pending: Vec::new() }
    }

    /// Clears the screen and homes the cursor.
    pub fn clear(&mut self)
        requires
            fb_config_ok(old(self).config),
        ensures
            final(self).config == old(self).config,
            final(self).initialized == old(self).initialized,
            final(self).cursor_x == 0,
            final(self).cursor_y == 0,
            final(self).pending@ == old(self).pending@.push(
                ConsoleOp::FbClear { size: fb_screen_size(old(self).config) as usize },
            ),
    {
        let c = self.config;
        let size = c.height * c.stride * c.bytes_per_pixel;
        self.pending.push(ConsoleOp::FbClear { size: size as usize });
        self.cursor_x = 0;
        self.cursor_y = 0;
    }

    /// Clears the screen on first use.
    fn init(&mut self)
        requires
            fb_config_ok(old(self).config),
        ensures
            final(self).config == old(self).config,
            final(self).initialized,
            old(self).initialized ==> *final(self) == *old(self),
            !old(self).initialized ==> final(self).cursor_x == 0 && final(self).cursor_y == 0 && final(self).pending@
                == old(self).pending@.push(
                ConsoleOp::FbClear { size: fb_screen_size(old(self).config) as usize },
            ),
    {
        if self.initialized {
            return;
        }
        self.clear();
        self.initialized = true;
    }

    /// Writes one character (see `fb_char`).
    pub fn write_char(&mut self, ch: char)
        requires
            fb_config_ok(old(self).config),
        ensures
            final(self).config == old(self).config,
            final(self).initialized == old(self).initialized,
            ({
                let (x, y, ops) = fb_char(old(self).config, old(self).cursor_x, old(self).cursor_y, ch);
                final(self).cursor_x == x && final(self).cursor_y == y && final(self).pending@ == old(self).pending@
                    + ops
            }),
    {
        let c = self.config;
        let row_size = c.stride * c.bytes_per_pixel;
        let ghost p0 = self.pending@;
        if ch == '\r' {
            self.cursor_x = 0;
            assert(p0 + Seq::<ConsoleOp>::empty() =~= p0);
        } else if ch == '\n' {
            self.cursor_x = 0;
            let y = self.cursor_y;
            if y >= c.height - 1 {
                assert((c.height - 16) * row_size <= c.height * row_size) by (nonlinear_arith)
                    requires
                        c.height >= 16,
                ;
                assert(c.height * row_size == fb_screen_size(c)) by (nonlinear_arith)
                    requires
                        row_size == c.stride * c.bytes_per_pixel,
                ;
                let shift = (row_size as usize) * 16;
                let size = (c.height as usize - 16) * (row_size as usize);
                self.pending.push(ConsoleOp::FbScroll { shift, size });
                assert(self.pending@ =~= p0 + seq![ConsoleOp::FbScroll { shift, size }]);
            } else {
                self.cursor_y = y + 1;
                assert(p0 + Seq::<ConsoleOp>::empty() =~= p0);
            }
        } else if (ch as u32) < 128 {
            let x = self.cursor_x;
            if x >= c.width - 8 {
                self.cursor_x = 0;
                let y = self.cursor_y;
                if y >= c.height - 16 {
                    assert((c.height - 16) * row_size <= c.height * row_size) by (nonlinear_arith)
                        requires
                            c.height >= 16,
                    ;
                    assert(c.height * row_size == fb_screen_size(c)) by (nonlinear_arith)
                        requires
                            row_size == c.stride * c.bytes_per_pixel,
                    ;
                    let shift = (row_size as usize) * 16;
                let size = (c.height as usize - 16) * (row_size as usize);
                self.pending.push(ConsoleOp::FbScroll { shift, size });
                    assert(self.pending@ =~= p0 + seq![ConsoleOp::FbScroll { shift, size }]);
                } else {
                    self.cursor_y = y + 1;
                    assert(p0 + Seq::<ConsoleOp>::empty() =~= p0);
                }
            } else {
                self.cursor_x = x + 1;
                assert(p0 + Seq::<ConsoleOp>::empty() =~= p0);
            }
        } else {
            assert(p0 + Seq::<ConsoleOp>::empty() =~= p0);
        }
    }
}

/// The characters of bytes, each byte read as the character of its code.
pub open spec fn byte_chars(data: Seq<u8>) -> Seq<char> {
    data.map_values(|b: u8| b as char)
}

/// A framebuffer console after writing bytes: cleared first if it was
/// not yet, then each byte written as a character (see `fb_chars`).
pub open spec fn fb_after_write(o: FramebufferConsole, data: Seq<u8>, f: FramebufferConsole) -> bool {
    let x0 = if o.initialized { o.cursor_x } else { 0 };
    let y0 = if o.initialized { o.cursor_y } else { 0 };
    let cleared = if o.initialized {
        Seq::empty()
    } else {
        seq![ConsoleOp::FbClear { size: fb_screen_size(o.config) as usize }]
    };
    let (x, y, ops) = fb_chars(o.config, x0, y0, byte_chars(data));
    &&& f.initialized
    &&& f.config == o.config
    &&& f.cursor_x == x
    &&& f.cursor_y == y
    &&& f.pending@ == o.pending@ + cleared + ops
}

impl ConsoleDriver for FramebufferConsole {
    open spec fn ready(&self) -> bool {
        fb_config_ok(self.config)
    }

    open spec fn queued(&self) -> Seq<ConsoleOp> {
        self.pending@
    }

    /// Clears the screen on first use, then writes every byte as a
    /// character.
    fn write(&mut self, data: &[u8]) -> (r: Result<(), ConsoleError>)
        ensures
            r is Ok,
            fb_after_write(*old(self), data@, *final(self)),
    {
        let ghost p_start = self.pending@;
        if !self.initialized {
            self.init();
        }
        let ghost p0 = self.pending@;
        let ghost x0 = self.cursor_x;
        let ghost y0 = self.cursor_y;
        let ghost s = byte_chars(data@);
        proof {
            if old(self).initialized {
                assert(p0 =~= p_start + Seq::<ConsoleOp>::empty());
            } else {
                assert(p0 =~= p_start + seq![ConsoleOp::FbClear { size: fb_screen_size(old(self).config) as usize }]);
            }
        }
        let mut i: usize = 0;
        while i < data.len()
            invariant
                self.config == old(self).config,
                fb_config_ok(self.config),
                self.initialized,
                s == byte_chars(data@),
                0 <= i <= data@.len(),
                ({
                    let (x, y, ops) = fb_chars(self.config, x0, y0, s.subrange(0, i as int));
                    self.cursor_x == x && self.cursor_y == y && self.pending@ == p0 + ops
                }),
            decreases data@.len() - i,
        {
            proof {
                lemma_fb_chars_snoc(self.config, x0, y0, s.subrange(0, i as int), s[i as int]);
                assert(s.subrange(0, i as int).push(s[i as int]) =~= s.subrange(0, i + 1));
            }
            let ghost before = self.pending@;
            self.write_char(data[i] as char);
            proof {
                let (x, y, ops) = fb_chars(self.config, x0, y0, s.subrange(0, i as int));
                let (x2, y2, ops2) = fb_char(self.config, x, y, s[i as int]);
                assert(self.pending@ =~= p0 + (ops + ops2));
            }
            i = i + 1;
        }
        assert(s.subrange(0, data@.len() as int) =~= s);
        Ok(())
    }

    /// The framebuffer is mapped directly: nothing to flush.
    fn flush(&mut self) -> (r: Result<(), ConsoleError>)
        ensures
            r is Ok,
            *final(self) == *old(self),
    {
        Ok(())
    }

    /// Whether the framebuffer has an address.
    fn is_available(&self) -> (r: bool)
        ensures
            r == (self.config.address != 0),
    {
        self.config.address != 0
    }
}

/// Characters written one more at a time.
pub proof fn lemma_fb_chars_snoc(c: FramebufferConfig, x: u32, y: u32, s: Seq<char>, ch: char)
    ensures
        ({
            let (x1, y1, ops1) = fb_chars(c, x, y, s);
            let (x2, y2, ops2) = fb_char(c, x1, y1, ch);
            fb_chars(c, x, y, s.push(ch)) == (x2, y2, ops1 + ops2)
        }),
    decreases s.len(),
{
    reveal_with_fuel(fb_chars, 2);
    if s.len() == 0 {
        assert(s.push(ch).drop_first() =~= Seq::<char>::empty());
        let (x2, y2, ops2) = fb_char(c, x, y, ch);
        assert(ops2 + Seq::<ConsoleOp>::empty() =~= ops2);
        assert(Seq::<ConsoleOp>::empty() + ops2 =~= ops2);
    } else {
        let (x1, y1, o1) = fb_char(c, x, y, s[0]);
        lemma_fb_chars_snoc(c, x1, y1, s.drop_first(), ch);
        assert(s.push(ch).drop_first() =~= s.drop_first().push(ch));
        let (x3, y3, o3) = fb_chars(c, x1, y1, s.drop_first());
        let (x4, y4, o4) = fb_char(c, x3, y3, ch);
        assert(o1 + (o3 + o4) =~= (o1 + o3) + o4);
    }
}

/// The native console manager: the active kind (as its code) and the
/// consoles set up.
pub struct NativeConsole {
    pub console_type: u32,
    pub framebuffer: Option<FramebufferConsole>,
    pub serial: Option<SerialConsole>,
}

impl NativeConsole {
    /// No console.
    pub fn new() -> (r: Self)
        ensures
            r.console_type == 0,
            r.framebuffer is None,
            r.serial is None,
    {
        NativeConsole { console_type: 0, framebuffer: None, serial: None }
    }

    /// Sets the serial console up and makes it the active one.
    pub fn init_serial(&mut self, config: SerialConfig)
        ensures
            final(self).console_type == 2,
            final(self).serial matches Some(s) && s.config == config && !s.initialized && s.pending@.len() == 0,
            final(self).framebuffer == old(self).framebuffer,
    {
        self.serial = Some(SerialConsole::new(config));
        self.console_type = 2;
    }

    /// Sets the framebuffer console up and makes it the active one.
    pub fn init_framebuffer(&mut self, config: FramebufferConfig)
        ensures
            final(self).console_type == 1,
            final(self).framebuffer matches Some(f) && f.config == config && !f.initialized && f.cursor_x == 0
                && f.cursor_y == 0 && f.pending@.len() == 0,
            final(self).serial == old(self).serial,
    {
        self.framebuffer = Some(FramebufferConsole::new(config));
        self.console_type = 1;
    }

    /// The active console kind; unknown codes read as none.
    pub fn get_type(&self) -> (r: ConsoleType)
        ensures
            r == (if self.console_type == 1 {
                ConsoleType::Framebuffer
            } else if self.console_type == 2 {
                ConsoleType::Serial
            } else {
                ConsoleType::Absent
            }),
    {
        match self.console_type {
            1 => ConsoleType::Framebuffer,
            2 => ConsoleType::Serial,
            _ => ConsoleType::Absent,
        }
    }

    /// Whether the active console's driver can run.
    pub open spec fn active_ready(&self) -> bool {
        &&& (self.console_type == 1 ==> (self.framebuffer matches Some(f) ==> f.ready()))
        &&& (self.console_type == 2 ==> (self.serial matches Some(s) ==> s.ready()))
    }

    /// Writes data to the active console: `NotAvailable` without one.
    pub fn write(&mut self, data: &[u8]) -> (r: Result<(), ConsoleError>)
        requires
            old(self).active_ready(),
        ensures
            final(self).console_type == old(self).console_type,
            final(self).active_ready(),
            r is Err <==> (old(self).console_type != 1 && old(self).console_type != 2) || (old(self).console_type
                == 1 && old(self).framebuffer is None) || (old(self).console_type == 2 && old(self).serial is None),
            r matches Err(e) ==> e == ConsoleError::NotAvailable,
            r is Err ==> final(self).framebuffer == old(self).framebuffer && final(self).serial == old(self).serial,
            old(self).console_type == 1 ==> final(self).serial == old(self).serial,
            old(self).console_type == 2 ==> final(self).framebuffer == old(self).framebuffer,
            (old(self).console_type == 2 && old(self).serial is Some) ==> (final(self).serial matches Some(s)
                && s.pending@ == old(self).serial->0.pending@ + (if old(self).serial->0.initialized {
                Seq::empty()
            } else {
                serial_init_ops(serial_port(s.config) as u16, s.config.baud_divisor)
            }) + transmit_ops(serial_port(s.config) as u16, data@)),
            (old(self).console_type == 1 && old(self).framebuffer is Some) ==> (final(self).framebuffer matches Some(
                f,
            ) && fb_after_write(old(self).framebuffer->0, data@, f)),
    {
        match self.get_type() {
            ConsoleType::Framebuffer => {
                match &mut self.framebuffer {
                    Some(console) => console.write(data),
                    None => Err(ConsoleError::NotAvailable),
                }
            },
            ConsoleType::Serial => {
                match &mut self.serial {
                    Some(console) => console.write(data),
                    None => Err(ConsoleError::NotAvailable),
                }
            },
            ConsoleType::Absent => Err(ConsoleError::NotAvailable),
        }
    }

    /// Flushes the active console: `NotAvailable` without one.
    pub fn flush(&mut self) -> (r: Result<(), ConsoleError>)
        ensures
            final(self).console_type == old(self).console_type,
            final(self).framebuffer == old(self).framebuffer,
            final(self).serial == old(self).serial,
            r is Err <==> (old(self).console_type != 1 && old(self).console_type != 2) || (old(self).console_type
                == 1 && old(self).framebuffer is None) || (old(self).console_type == 2 && old(self).serial is None),
            r matches Err(e) ==> e == ConsoleError::NotAvailable,
    {
        match self.get_type() {
            ConsoleType::Framebuffer => {
                match &mut self.framebuffer {
                    Some(console) => console.flush(),
                    None => Err(ConsoleError::NotAvailable),
                }
            },
            ConsoleType::Serial => {
                match &mut self.serial {
                    Some(console) => console.flush(),
                    None => Err(ConsoleError::NotAvailable),
                }
            },
            ConsoleType::Absent => Err(ConsoleError::NotAvailable),
        }
    }

    /// Writes a string's bytes to the active console.
    pub fn write_str(&mut self, s: &str) -> (r: Result<(), ConsoleError>)
        requires
            old(self).active_ready(),
        ensures
            final(self).console_type == old(self).console_type,
            final(self).active_ready(),
            r is Err <==> (old(self).console_type != 1 && old(self).console_type != 2) || (old(self).console_type
                == 1 && old(self).framebuffer is None) || (old(self).console_type == 2 && old(self).serial is None),
            r matches Err(e) ==> e == ConsoleError::NotAvailable,
            r is Err ==> final(self).framebuffer == old(self).framebuffer && final(self).serial == old(self).serial,
            old(self).console_type == 1 ==> final(self).serial == old(self).serial,
            old(self).console_type == 2 ==> final(self).framebuffer == old(self).framebuffer,
            (old(self).console_type == 2 && old(self).serial is Some) ==> (final(self).serial matches Some(sc)
                && sc.pending@ == old(self).serial->0.pending@ + (if old(self).serial->0.initialized {
                Seq::empty()
            } else {
                serial_init_ops(serial_port(sc.config) as u16, sc.config.baud_divisor)
            }) + transmit_ops(serial_port(sc.config) as u16, s.spec_bytes())),
            (old(self).console_type == 1 && old(self).framebuffer is Some) ==> (final(self).framebuffer matches Some(
                f,
            ) && fb_after_write(old(self).framebuffer->0, s.spec_bytes(), f)),
    {
        self.write(s.as_bytes())
    }
}

} // verus!
