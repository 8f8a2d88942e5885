use vstd::prelude::*;

verus! {

/// Offset of the mini UART's registers from the peripheral base.
pub const MU_REG_OFFSET: usize = 0x215040;

/// Offset of the auxiliary enables register from the peripheral base.
pub const AUX_ENABLES_OFFSET: usize = 0x215004;

/// The bit of the auxiliary enables register that turns the mini UART on.
pub const AUX_ENABLE_MINI_UART: u8 = 1;

/// The line control value that selects 8 data bits.
pub const LCR_EIGHT_BITS: u32 = 0x3;

/// The baud divisor that gives about 115200 baud.
pub const BAUD_DIVISOR: u32 = 270;

/// The extra control bits that enable the receiver and the transmitter.
pub const CNTL_RX_TX_ENABLE: u32 = 0x3;

/// The GPIO pins that carry the mini UART's transmit and receive lines.
pub const TX_PIN: u8 = 14;

/// The GPIO pin of the receive line.
pub const RX_PIN: u8 = 15;

/// The alternate function of those pins that routes them to the mini UART.
pub const UART_ALT_FUNCTION: u8 = 5;

/// Line status bit: a received byte is waiting.
pub const LSR_DATA_READY: u32 = 1;

/// Line status bit: the transmit FIFO has room for a byte.
pub const LSR_TX_AVAILABLE: u32 = 0x20;

/// Whether the line status `lsr` says that a received byte is waiting.
pub fn data_ready(lsr: u32) -> (r: bool)
    ensures
        r == (lsr % 2 == 1),
{
    let r = lsr & LSR_DATA_READY == 1;
    assert(r == (lsr % 2 == 1)) by (bit_vector)
        requires
            r == (lsr & 1u32 == 1u32),
    ;
    r
}

/// Whether the line status `lsr` says that a byte can be sent.
pub fn tx_available(lsr: u32) -> (r: bool)
    ensures
        r == ((lsr / 32) % 2 == 1),
{
    let r = lsr & LSR_TX_AVAILABLE != 0;
    assert(r == ((lsr / 32) % 2 == 1)) by (bit_vector)
        requires
            r == (lsr & 32u32 != 0u32),
    ;
    r
}

/// The received byte in a read of the data register: its low eight bits.
pub fn received_byte(io: u32) -> (r: u8)
    ensures
        r == io % 256,
{
    let low = io & 0xff;
    assert(low == io % 256) by (bit_vector)
        requires
            low == io & 0xffu32,
    ;
    low as u8
}

/// The bytes sent for the text `s`: each line feed is preceded by a
/// carriage return, since the terminal does not add one.
pub open spec fn crlf(s: Seq<u8>) -> Seq<u8>
    decreases s.len(),
{
    if s.len() == 0 {
        Seq::empty()
    } else if s.last() == 10 {
        crlf(s.drop_last()) + seq![13u8, 10u8]
    } else {
        crlf(s.drop_last()).push(s.last())
    }
}

/// Translates text for the serial line: a carriage return goes before each
/// line feed, and every other byte is kept as it is.
pub fn to_crlf(s: &[u8]) -> (r: Vec<u8>)
    ensures
        r@ == crlf(s@),
{
    let mut out: Vec<u8> = Vec::new();
    let mut i: usize = 0;
    while i < s.len()
        invariant
            i <= s@.len(),
            out@ == crlf(s@.take(i as int)),
        decreases s@.len() - i,
    {
        let b = s[i];
        assert(s@.take(i + 1).drop_last() =~= s@.take(i as int));
        if b == 10 {
            out.push(13);
        }
        out.push(b);
        i = i + 1;
        assert(out@ =~= crlf(s@.take(i as int)));
    }
    assert(s@.take(s@.len() as int) =~= s@);
    out
}

/// How a wait for a received byte stands after one poll.
#[derive(Debug, Clone, Copy, PartialEq, Eq, Structural)]
pub enum WaitStatus {
    /// A byte is waiting: reading it will not block.
    Ready,
    /// No byte came within the read timeout.
    TimedOut,
    /// No byte yet; poll again.
    Pending,
}

/// The mini UART's read settings: an optional read timeout, in counter
/// units (microseconds). Without one, waits for a byte never end unless a
/// byte comes.
pub struct UartConfig {
    timeout: Option<u32>,
}

impl UartConfig {
    /// The read timeout, if one is set.
    pub closed spec fn spec_timeout(&self) -> Option<u32> {
        self.timeout
    }

    /// Settings with no read timeout.
    pub fn new() -> (r: Self)
        ensures
            r.spec_timeout() is None,
    {
        UartConfig { timeout: None }
    }

    /// Sets the read timeout to `timeout` counter units (microseconds).
    pub fn set_read_timeout(&mut self, timeout: u32)
        ensures
            final(self).spec_timeout() == Some(timeout),
    {
        self.timeout = Some(timeout);
    }

    /// The read timeout, if one is set.
    pub fn read_timeout(&self) -> (r: Option<u32>)
        ensures
            r == self.spec_timeout(),
    {
        self.timeout
    }

    /// Begins a wait for a received byte at the counter reading `start`,
    /// under the current read timeout.
    pub fn start_wait(&self, start: u64) -> (r: ByteWait)
        ensures
            r.spec_start() == start,
            r.spec_timeout() == self.spec_timeout(),
    {
        ByteWait { start, timeout: self.timeout }
    }
}

/// A wait for a received byte, begun at a counter reading and bounded by an
/// optional timeout.
pub struct ByteWait {
    start: u64,
    timeout: Option<u32>,
}

impl ByteWait {
    /// The counter reading when the wait began.
    pub closed spec fn spec_start(&self) -> u64 {
        self.start
    }

    /// The timeout of the wait, if any.
    pub closed spec fn spec_timeout(&self) -> Option<u32> {
        self.timeout
    }

    /// Whether a poll at the counter reading `now` is past the timeout.
    pub open spec fn expired(&self, now: u64) -> bool {
        self.spec_timeout() matches Some(t) && now as int > self.spec_start() as int + t as int
    }

    /// One poll of the wait, with the receiver's status `has_byte` and the
    /// counter reading `now`: ready when a byte is waiting, timed out when
    /// none is and the time since the start exceeds the timeout, pending
    /// otherwise. So a wait times out at no poll before the timeout has
    /// passed, and at the first poll after it.
    pub fn poll(&self, has_byte: bool, now: u64) -> (r: WaitStatus)
        ensures
            has_byte ==> r == WaitStatus::Ready,
            !has_byte && self.expired(now) ==> r == WaitStatus::TimedOut,
            !has_byte && !self.expired(now) ==> r == WaitStatus::Pending,
            r == WaitStatus::TimedOut ==> now - self.spec_start() > self.spec_timeout()->Some_0,
    {
        if has_byte {
            return WaitStatus::Ready;
        }
        match self.timeout {
            Some(t) => {
                if now > self.start && now - self.start > t as u64 {
                    WaitStatus::TimedOut
                } else {
                    WaitStatus::Pending
                }
            },
            None => WaitStatus::Pending,
        }
    }
}

/// Whether a buffered read goes on taking bytes once its first byte has
/// come: only while a byte is already waiting and the buffer has room, so
/// that it never waits for a further byte.
pub fn read_continues(has_byte: bool, received: usize, capacity: usize) -> (r: bool)
    ensures
        r == (has_byte && received < capacity),
{
    has_byte && received < capacity
}

} // verus!
