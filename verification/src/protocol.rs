//! Wire-level codecs and the message decoder.
//!
//! Everything the board sends or accepts is a byte; the spec functions here
//! pin down the byte value of each command and piece identity, and the
//! executable codecs are proved equal to them.

use vstd::prelude::*;

verus! {

/// Commands that can be sent to the board.
#[derive(Debug, Clone, Copy, PartialEq, Eq, Structural)]
pub enum Command {
    /// Request clock data
    RequestClock,
    /// Request complete board state
    RequestBoard,
    /// Enable update mode
    EnableUpdate,
    /// Request board update
    RequestUpdate,
    /// Request serial number
    RequestSerialNumber,
    /// Request bus address
    RequestBusAddress,
    /// Request trademark
    RequestTrademark,
    /// Request version
    RequestVersion,
    /// Request "nice" update mode
    RequestNiceUpdate,
    /// Request EE moves
    RequestEEMoves,
    /// Reset board
    Reset,
}

/// The single wire byte of each command.
pub open spec fn command_byte(c: Command) -> u8 {
    match c {
        Command::Reset => 0x40,
        Command::RequestClock => 0x41,
        Command::RequestBoard => 0x42,
        Command::EnableUpdate => 0x43,
        Command::RequestUpdate => 0x44,
        Command::RequestSerialNumber => 0x45,
        Command::RequestBusAddress => 0x46,
        Command::RequestTrademark => 0x47,
        Command::RequestEEMoves => 0x49,
        Command::RequestNiceUpdate => 0x4b,
        Command::RequestVersion => 0x4d,
    }
}

/// The command a wire byte stands for; unrecognized bytes stand for none.
pub open spec fn command_of_byte(b: u8) -> Option<Command> {
    if b == 0x40 {
        Some(Command::Reset)
    } else if b == 0x41 {
        Some(Command::RequestClock)
    } else if b == 0x42 {
        Some(Command::RequestBoard)
    } else if b == 0x43 {
        Some(Command::EnableUpdate)
    } else if b == 0x44 {
        Some(Command::RequestUpdate)
    } else if b == 0x45 {
        Some(Command::RequestSerialNumber)
    } else if b == 0x46 {
        Some(Command::RequestBusAddress)
    } else if b == 0x47 {
        Some(Command::RequestTrademark)
    } else if b == 0x49 {
        Some(Command::RequestEEMoves)
    } else if b == 0x4b {
        Some(Command::RequestNiceUpdate)
    } else if b == 0x4d {
        Some(Command::RequestVersion)
    } else {
        None
    }
}

impl Command {
    /// Convert the command to a byte for sending over serial.
    pub fn as_byte(self) -> (r: [u8; 1])
        ensures
            r@.len() == 1,
            r@[0] == command_byte(self),
    {
        let b: u8 = match self {
            Command::Reset => 0x40,
            Command::RequestClock => 0x41,
            Command::RequestBoard => 0x42,
            Command::EnableUpdate => 0x43,
            Command::RequestUpdate => 0x44,
            Command::RequestSerialNumber => 0x45,
            Command::RequestBusAddress => 0x46,
            Command::RequestTrademark => 0x47,
            Command::RequestEEMoves => 0x49,
            Command::RequestNiceUpdate => 0x4b,
            Command::RequestVersion => 0x4d,
        };
        [b]
    }

    /// Try to convert a byte into a Command.
    pub fn try_from_byte(byte: u8) -> (r: Option<Self>)
        ensures
            r == command_of_byte(byte),
    {
        match byte {
            0x40 => Some(Command::Reset),
            0x41 => Some(Command::RequestClock),
            0x42 => Some(Command::RequestBoard),
            0x43 => Some(Command::EnableUpdate),
            0x44 => Some(Command::RequestUpdate),
            0x45 => Some(Command::RequestSerialNumber),
            0x46 => Some(Command::RequestBusAddress),
            0x47 => Some(Command::RequestTrademark),
            0x49 => Some(Command::RequestEEMoves),
            0x4b => Some(Command::RequestNiceUpdate),
            0x4d => Some(Command::RequestVersion),
            _ => None,
        }
    }
}

/// Encoding a command and decoding the resulting wire byte yields the
/// command again; a byte that encodes no command decodes to none, which
/// is what `command_of_byte` already says of every unlisted byte.
pub proof fn lemma_command_roundtrip(c: Command)
    ensures
        command_of_byte(command_byte(c)) == Some(c),
{
}

/// Colour of the piece on a square; an empty square has none.
#[derive(Debug, Clone, Copy, PartialEq, Eq, Structural)]
pub enum PieceColor {
    NoColor,
    White,
    Black,
}

/// Raw piece representation as sent by the board.
#[derive(Debug, Clone, Copy, PartialEq, Eq, Structural, Default)]
pub enum RawPiece {
    #[default]
    Empty,
    WhitePawn,
    WhiteRook,
    WhiteKnight,
    WhiteBishop,
    WhiteKing,
    WhiteQueen,
    BlackPawn,
    BlackRook,
    BlackKnight,
    BlackBishop,
    BlackKing,
    BlackQueen,
}

/// The single wire byte of each piece identity.
pub open spec fn piece_byte(p: RawPiece) -> u8 {
    match p {
        RawPiece::Empty => 0x00,
        RawPiece::WhitePawn => 0x01,
        RawPiece::WhiteRook => 0x02,
        RawPiece::WhiteKnight => 0x03,
        RawPiece::WhiteBishop => 0x04,
        RawPiece::WhiteKing => 0x05,
        RawPiece::WhiteQueen => 0x06,
        RawPiece::BlackPawn => 0x07,
        RawPiece::BlackRook => 0x08,
        RawPiece::BlackKnight => 0x09,
        RawPiece::BlackBishop => 0x0a,
        RawPiece::BlackKing => 0x0b,
        RawPiece::BlackQueen => 0x0c,
    }
}

/// The piece identity a wire byte stands for; bytes above 0x0c stand for none.
pub open spec fn piece_of_byte(b: u8) -> Option<RawPiece> {
    if b == 0x00 {
        Some(RawPiece::Empty)
    } else if b == 0x01 {
        Some(RawPiece::WhitePawn)
    } else if b == 0x02 {
        Some(RawPiece::WhiteRook)
    } else if b == 0x03 {
        Some(RawPiece::WhiteKnight)
    } else if b == 0x04 {
        Some(RawPiece::WhiteBishop)
    } else if b == 0x05 {
        Some(RawPiece::WhiteKing)
    } else if b == 0x06 {
        Some(RawPiece::WhiteQueen)
    } else if b == 0x07 {
        Some(RawPiece::BlackPawn)
    } else if b == 0x08 {
        Some(RawPiece::BlackRook)
    } else if b == 0x09 {
        Some(RawPiece::BlackKnight)
    } else if b == 0x0a {
        Some(RawPiece::BlackBishop)
    } else if b == 0x0b {
        Some(RawPiece::BlackKing)
    } else if b == 0x0c {
        Some(RawPiece::BlackQueen)
    } else {
        None
    }
}

/// The single-character rendering of each piece identity.
pub open spec fn piece_char(p: RawPiece) -> char {
    match p {
        RawPiece::Empty => ' ',
        RawPiece::WhitePawn => 'P',
        RawPiece::WhiteRook => 'R',
        RawPiece::WhiteKnight => 'N',
        RawPiece::WhiteBishop => 'B',
        RawPiece::WhiteKing => 'K',
        RawPiece::WhiteQueen => 'Q',
        RawPiece::BlackPawn => 'p',
        RawPiece::BlackRook => 'r',
        RawPiece::BlackKnight => 'n',
        RawPiece::BlackBishop => 'b',
        RawPiece::BlackKing => 'k',
        RawPiece::BlackQueen => 'q',
    }
}

/// The colour of each piece identity.
pub open spec fn colour_of(p: RawPiece) -> PieceColor {
    match p {
        RawPiece::Empty => PieceColor::NoColor,
        RawPiece::WhitePawn
        | RawPiece::WhiteRook
        | RawPiece::WhiteKnight
        | RawPiece::WhiteBishop
        | RawPiece::WhiteKing
        | RawPiece::WhiteQueen => PieceColor::White,
        RawPiece::BlackPawn
        | RawPiece::BlackRook
        | RawPiece::BlackKnight
        | RawPiece::BlackBishop
        | RawPiece::BlackKing
        | RawPiece::BlackQueen => PieceColor::Black,
    }
}

impl RawPiece {
    /// Convert a byte into a RawPiece, returning None for invalid values.
    pub fn try_from_byte(byte: u8) -> (r: Option<Self>)
        ensures
            r == piece_of_byte(byte),
            r is Some <==> byte <= 0x0c,
    {
        match byte {
            0x00 => Some(RawPiece::Empty),
            0x01 => Some(RawPiece::WhitePawn),
            0x02 => Some(RawPiece::WhiteRook),
            0x03 => Some(RawPiece::WhiteKnight),
            0x04 => Some(RawPiece::WhiteBishop),
            0x05 => Some(RawPiece::WhiteKing),
            0x06 => Some(RawPiece::WhiteQueen),
            0x07 => Some(RawPiece::BlackPawn),
            0x08 => Some(RawPiece::BlackRook),
            0x09 => Some(RawPiece::BlackKnight),
            0x0a => Some(RawPiece::BlackBishop),
            0x0b => Some(RawPiece::BlackKing),
            0x0c => Some(RawPiece::BlackQueen),
            _ => None,
        }
    }

    /// Convert the piece to a FEN character representation.
    pub fn to_char(self) -> (r: char)
        ensures
            r == piece_char(self),
    {
        match self {
            RawPiece::Empty => ' ',
            RawPiece::WhitePawn => 'P',
            RawPiece::WhiteRook => 'R',
            RawPiece::WhiteKnight => 'N',
            RawPiece::WhiteBishop => 'B',
            RawPiece::WhiteKing => 'K',
            RawPiece::WhiteQueen => 'Q',
            RawPiece::BlackPawn => 'p',
            RawPiece::BlackRook => 'r',
            RawPiece::BlackKnight => 'n',
            RawPiece::BlackBishop => 'b',
            RawPiece::BlackKing => 'k',
            RawPiece::BlackQueen => 'q',
        }
    }

    /// Get the color of the piece.
    pub fn get_colour(&self) -> (r: PieceColor)
        ensures
            r == colour_of(*self),
    {
        match self {
            RawPiece::Empty => PieceColor::NoColor,
            RawPiece::WhitePawn
            | RawPiece::WhiteRook
            | RawPiece::WhiteKnight
            | RawPiece::WhiteBishop
            | RawPiece::WhiteKing
            | RawPiece::WhiteQueen => PieceColor::White,
            RawPiece::BlackPawn
            | RawPiece::BlackRook
            | RawPiece::BlackKnight
            | RawPiece::BlackBishop
            | RawPiece::BlackKing
            | RawPiece::BlackQueen => PieceColor::Black,
        }
    }

    /// Check if two pieces are the same color; an empty square matches nothing.
    pub fn is_same_colour(&self, other: &RawPiece) -> (r: bool)
        ensures
            r == (*self != RawPiece::Empty && colour_of(*self) == colour_of(*other)),
    {
        *self != RawPiece::Empty && self.get_colour() == other.get_colour()
    }
}

/// Every piece byte decodes back to the piece it encodes.
pub proof fn lemma_piece_roundtrip(p: RawPiece)
    ensures
        piece_of_byte(piece_byte(p)) == Some(p),
{
}

/// No two piece identities share a character rendering.
pub proof fn lemma_piece_char_distinct(p1: RawPiece, p2: RawPiece)
    ensures
        piece_char(p1) == piece_char(p2) ==> p1 == p2,
{
}

/// Time remaining on one side of the clock.
#[derive(Debug, Clone, Copy, PartialEq, Eq, Structural)]
pub struct Remaining {
    pub hours: u8,
    pub minutes: u8,
    pub seconds: u8,
}

/// The decimal value of a packed BCD byte: the high nibble is the tens
/// digit, the low nibble the ones digit.
pub open spec fn bcd_value(b: u8) -> int {
    10 * (b >> 4) + (b & 0x0f)
}

impl Remaining {
    /// Build a reading directly from already-decoded figures.
    pub fn new(hours: u8, minutes: u8, seconds: u8) -> (r: Self)
        ensures
            r == (Remaining { hours, minutes, seconds }),
    {
        Remaining { hours, minutes, seconds }
    }

    /// Decode three packed BCD bytes into hours, minutes and seconds.
    pub fn from_bcd(bcd: [u8; 3]) -> (r: Self)
        ensures
            r.hours == bcd_value(bcd@[0]),
            r.minutes == bcd_value(bcd@[1]),
            r.seconds == bcd_value(bcd@[2]),
    {
        let hours = bcd[0];
        let minutes = bcd[1];
        let seconds = bcd[2];
        proof {
            assert(forall|b: u8| #![auto] b >> 4 <= 15 && (b & 0x0f) <= 15) by (bit_vector);
        }
        Remaining {
            hours: 10 * (hours >> 4) + (hours & 0x0f),
            minutes: 10 * (minutes >> 4) + (minutes & 0x0f),
            seconds: 10 * (seconds >> 4) + (seconds & 0x0f),
        }
    }
}

/// Whose clock is running, or that no clock is connected.
#[derive(Debug, Clone, Copy, PartialEq, Eq, Structural)]
pub enum ClockStatus {
    NoClock,
    WhiteToMove,
    BlackToMove,
}

/// The status encoded in the last byte of a clock message: bit 0 set means
/// no clock is present, else bit 3 distinguishes whose turn it is.
pub open spec fn clock_status_of(b: u8) -> ClockStatus {
    if b & 0x01 != 0 {
        ClockStatus::NoClock
    } else if b & 0x08 != 0 {
        ClockStatus::BlackToMove
    } else {
        ClockStatus::WhiteToMove
    }
}

impl ClockStatus {
    /// Decode the status byte of a clock message.
    pub fn from_byte(byte: u8) -> (r: Self)
        ensures
            r == clock_status_of(byte),
    {
        if byte & 0x01 != 0 {
            ClockStatus::NoClock
        } else if byte & 0x08 != 0 {
            ClockStatus::BlackToMove
        } else {
            ClockStatus::WhiteToMove
        }
    }
}

/// The full 64-square board as reported by the device, square 0 first.
#[derive(Debug, Clone, PartialEq, Eq)]
pub struct ChessBoard {
    pub board: Vec<RawPiece>,
}

impl View for ChessBoard {
    type V = Seq<RawPiece>;

    open spec fn view(&self) -> Seq<RawPiece> {
        self.board@
    }
}

impl ChessBoard {
    /// A well-formed board holds exactly one piece identity per square.
    pub open spec fn wf(&self) -> bool {
        self@.len() == 64
    }

    /// Decode a 64-byte dump into a board; every byte must be a valid
    /// piece, else the whole dump is rejected.
    pub fn new(raw: &[u8]) -> (r: Option<Self>)
        ensures
            match r {
                Some(b) => {
                    &&& raw@.len() == 64
                    &&& b.wf()
                    &&& forall|i: int|
                        0 <= i < 64 ==> Some(#[trigger] b@[i]) == piece_of_byte(raw@[i])
                },
                None => raw@.len() != 64 || exists|i: int|
                    0 <= i < 64 && piece_of_byte(#[trigger] raw@[i]) is None,
            },
    {
        if raw.len() != 64 {
            return None;
        }
        let mut board: Vec<RawPiece> = Vec::new();
        let mut i: usize = 0;
        while i < 64
            invariant
                raw@.len() == 64,
                i <= 64,
                board@.len() == i,
                forall|j: int| 0 <= j < i ==> Some(#[trigger] board@[j]) == piece_of_byte(raw@[j]),
            decreases 64 - i,
        {
            match RawPiece::try_from_byte(raw[i]) {
                Some(piece) => board.push(piece),
                None => {
                    return None;
                },
            }
            i += 1;
        }
        Some(ChessBoard { board })
    }

    /// The piece on one square.
    pub fn get(&self, square: usize) -> (r: RawPiece)
        requires
            self.wf(),
            square < 64,
        ensures
            r == self@[square as int],
    {
        self.board[square]
    }
}

/// Message types that can be received from the board.
#[derive(Debug, Clone, Copy, PartialEq, Eq, Structural)]
pub enum MessageType {
    BoardDump,
    BWTime,
    FieldUpdate,
    EEMoves,
    BusAddress,
    SerialNumber,
    Trademark,
    Version,
}

/// The type code of each message, the low seven bits of its type byte.
pub open spec fn message_type_byte(t: MessageType) -> u8 {
    match t {
        MessageType::BoardDump => 0x06,
        MessageType::BWTime => 0x0d,
        MessageType::FieldUpdate => 0x0e,
        MessageType::EEMoves => 0x0f,
        MessageType::BusAddress => 0x10,
        MessageType::SerialNumber => 0x11,
        MessageType::Trademark => 0x12,
        MessageType::Version => 0x13,
    }
}

/// The message type a type code stands for; all other codes are unknown.
pub open spec fn message_type_of_byte(b: u8) -> Option<MessageType> {
    if b == 0x06 {
        Some(MessageType::BoardDump)
    } else if b == 0x0d {
        Some(MessageType::BWTime)
    } else if b == 0x0e {
        Some(MessageType::FieldUpdate)
    } else if b == 0x0f {
        Some(MessageType::EEMoves)
    } else if b == 0x10 {
        Some(MessageType::BusAddress)
    } else if b == 0x11 {
        Some(MessageType::SerialNumber)
    } else if b == 0x12 {
        Some(MessageType::Trademark)
    } else if b == 0x13 {
        Some(MessageType::Version)
    } else {
        None
    }
}

impl MessageType {
    /// Map a type code to its message type; unknown codes map to none.
    pub fn try_from_byte(byte: u8) -> (r: Option<Self>)
        ensures
            r == message_type_of_byte(byte),
    {
        match byte {
            0x06 => Some(MessageType::BoardDump),
            0x0d => Some(MessageType::BWTime),
            0x0e => Some(MessageType::FieldUpdate),
            0x0f => Some(MessageType::EEMoves),
            0x10 => Some(MessageType::BusAddress),
            0x11 => Some(MessageType::SerialNumber),
            0x12 => Some(MessageType::Trademark),
            0x13 => Some(MessageType::Version),
            _ => None,
        }
    }
}

/// A single square update: the piece now on one square of the grid.
#[derive(Debug, Clone, Copy, PartialEq, Eq, Structural)]
pub struct ChessMove {
    pub grid: u8,
    pub piece: RawPiece,
}

impl ChessMove {
    /// Pair a square index with the piece now on it.
    pub fn new(grid: u8, piece: RawPiece) -> (r: Self)
        ensures
            r == (ChessMove { grid, piece }),
    {
        ChessMove { grid, piece }
    }
}

/// What a byte sequence reads as under lossy UTF-8 decoding.
pub uninterp spec fn lossy_text(bytes: Seq<u8>) -> Seq<char>;

/// Relies on String::from_utf8_lossy: the result depends on the bytes alone;
/// bytes below 0x80 are valid UTF-8 and pass through unchanged, and an empty
/// input gives an empty string.
#[verifier::external_body]
fn utf8_lossy(data: &[u8]) -> (r: String)
    ensures
        r@ == lossy_text(data@),
        data@.len() == 0 ==> r@.len() == 0,
        (forall|i: int| 0 <= i < data@.len() ==> data@[i] < 0x80) ==> r@ == data@.map_values(
            |b: u8| b as char,
        ),
{
    String::from_utf8_lossy(data).into_owned()
}

/// The decimal digit character for values zero through nine.
pub open spec fn digit_char(d: int) -> char {
    if d == 0 {
        '0'
    } else if d == 1 {
        '1'
    } else if d == 2 {
        '2'
    } else if d == 3 {
        '3'
    } else if d == 4 {
        '4'
    } else if d == 5 {
        '5'
    } else if d == 6 {
        '6'
    } else if d == 7 {
        '7'
    } else if d == 8 {
        '8'
    } else {
        '9'
    }
}

/// The decimal rendering of a byte value, without leading zeroes.
pub open spec fn dec_digits(n: int) -> Seq<char> {
    if n < 10 {
        seq![digit_char(n)]
    } else if n < 100 {
        seq![digit_char(n / 10), digit_char(n % 10)]
    } else {
        seq![digit_char(n / 100), digit_char((n / 10) % 10), digit_char(n % 10)]
    }
}

/// The text of a version message: major and minor figures joined by a dot.
pub open spec fn version_text(major: u8, minor: u8) -> Seq<char> {
    dec_digits(major as int) + seq!['.'] + dec_digits(minor as int)
}

fn digit_str(d: u8) -> (r: &'static str)
    requires
        d < 10,
    ensures
        r@ =~= seq![digit_char(d as int)],
{
    proof {
        reveal_strlit("0");
        reveal_strlit("1");
        reveal_strlit("2");
        reveal_strlit("3");
        reveal_strlit("4");
        reveal_strlit("5");
        reveal_strlit("6");
        reveal_strlit("7");
        reveal_strlit("8");
        reveal_strlit("9");
    }
    match d {
        0 => "0",
        1 => "1",
        2 => "2",
        3 => "3",
        4 => "4",
        5 => "5",
        6 => "6",
        7 => "7",
        8 => "8",
        _ => "9",
    }
}

fn u8_to_decimal(n: u8) -> (r: String)
    ensures
        r@ == dec_digits(n as int),
{
    let mut s = String::new();
    if n >= 100 {
        s.append(digit_str(n / 100));
    }
    if n >= 10 {
        proof {
            if n < 100 {
                assert((n / 10) % 10 == n / 10);
            }
        }
        s.append(digit_str((n / 10) % 10));
    }
    s.append(digit_str(n % 10));
    proof {
        assert(s@ =~= dec_digits(n as int));
    }
    s
}

fn version_string(major: u8, minor: u8) -> (r: String)
    ensures
        r@ == version_text(major, minor),
{
    let mut s = u8_to_decimal(major);
    proof {
        reveal_strlit(".");
    }
    s.append(".");
    let minor_text = u8_to_decimal(minor);
    s.append(minor_text.as_str());
    proof {
        assert(s@ =~= version_text(major, minor));
    }
    s
}

/// Decoded responses from the board.
#[derive(Debug)]
pub enum Response {
    /// Complete board state
    BoardDump(ChessBoard),
    /// Clock data for both players and active color
    BWTime { white_time: Remaining, black_time: Remaining, status: ClockStatus },
    /// Single piece movement
    FieldUpdate(ChessMove),
    /// Board serial number
    SerialNumber(String),
    /// Bus address information
    BusAddress(String),
    /// Board trademark information
    Trademark(String),
    /// Board version information
    Version(String),
}

/// How decoding one message can fail.
#[derive(Debug, Clone, Copy, PartialEq, Eq, Structural)]
pub enum ParseError {
    /// The payload length does not fit the message type's schema.
    InvalidLength { message_type: MessageType, expected: usize, actual: usize },
    /// A byte inside the payload names no piece identity.
    InvalidPiece,
    /// The square index of a field update is out of range.
    InvalidMove,
    /// The frame's type code names no message type.
    UnknownMessageType,
    /// The message type is recognized but its payload has no decoding yet.
    UnsupportedMessage,
}

impl ParseError {
    /// Build the length-mismatch error, carrying both figures for diagnostics.
    pub fn invalid_length(message_type: MessageType, expected: usize, actual: usize) -> (r: Self)
        ensures
            r == (ParseError::InvalidLength { message_type, expected, actual }),
    {
        ParseError::InvalidLength { message_type, expected, actual }
    }
}

/// Every byte of the payload names a valid piece identity.
pub open spec fn all_pieces_valid(data: Seq<u8>) -> bool {
    forall|i: int| 0 <= i < data.len() ==> piece_of_byte(#[trigger] data[i]) is Some
}

/// The board holds, square by square, the pieces the dump's bytes encode.
pub open spec fn board_decodes(data: Seq<u8>, b: ChessBoard) -> bool {
    &&& b.wf()
    &&& forall|i: int| 0 <= i < 64 ==> Some(#[trigger] b@[i]) == piece_of_byte(data[i])
}

/// What decoding a payload of the given message type must return: exactly
/// one payload shape is valid per type, every length mismatch carries both
/// figures, and each error comes on the listed inputs and no others.
pub open spec fn decodes_to(
    message_type: MessageType,
    data: Seq<u8>,
    r: Result<Response, ParseError>,
) -> bool {
    match message_type {
        MessageType::BoardDump => {
            if data.len() != 64 {
                r == Err::<Response, ParseError>(
                    ParseError::InvalidLength {
                        message_type,
                        expected: 64,
                        actual: data.len() as usize,
                    },
                )
            } else if !all_pieces_valid(data) {
                r == Err::<Response, ParseError>(ParseError::InvalidPiece)
            } else {
                r matches Ok(Response::BoardDump(b)) && board_decodes(data, b)
            }
        },
        MessageType::BWTime => {
            if data.len() != 7 {
                r == Err::<Response, ParseError>(
                    ParseError::InvalidLength {
                        message_type,
                        expected: 7,
                        actual: data.len() as usize,
                    },
                )
            } else {
                r matches Ok(
                    Response::BWTime { white_time, black_time, status },
                ) && white_time.hours == bcd_value(data[0]) && white_time.minutes == bcd_value(
                    data[1],
                ) && white_time.seconds == bcd_value(data[2]) && black_time.hours == bcd_value(
                    data[3],
                ) && black_time.minutes == bcd_value(data[4]) && black_time.seconds == bcd_value(
                    data[5],
                ) && status == clock_status_of(data[6])
            }
        },
        MessageType::FieldUpdate => {
            if data.len() != 2 {
                r == Err::<Response, ParseError>(
                    ParseError::InvalidLength {
                        message_type,
                        expected: 2,
                        actual: data.len() as usize,
                    },
                )
            } else if data[0] >= 64 {
                r == Err::<Response, ParseError>(ParseError::InvalidMove)
            } else if piece_of_byte(data[1]) is None {
                r == Err::<Response, ParseError>(ParseError::InvalidPiece)
            } else {
                r matches Ok(Response::FieldUpdate(m)) && m.grid == data[0] && Some(m.piece)
                    == piece_of_byte(data[1])
            }
        },
        MessageType::EEMoves => r == Err::<Response, ParseError>(ParseError::UnsupportedMessage),
        MessageType::BusAddress => r matches Ok(Response::BusAddress(s)) && s@ == lossy_text(data),
        MessageType::SerialNumber => r matches Ok(Response::SerialNumber(s)) && s@ == lossy_text(
            data,
        ),
        MessageType::Trademark => r matches Ok(Response::Trademark(s)) && s@ == lossy_text(data),
        MessageType::Version => {
            if data.len() != 2 {
                r == Err::<Response, ParseError>(
                    ParseError::InvalidLength {
                        message_type,
                        expected: 2,
                        actual: data.len() as usize,
                    },
                )
            } else {
                r matches Ok(Response::Version(v)) && v@ == version_text(data[0], data[1])
            }
        },
    }
}

impl Response {
    /// Attempt to parse a raw message into a decoded response.
    pub fn try_from_raw(message_type: MessageType, data: &[u8]) -> (r: Result<Self, ParseError>)
        ensures
            decodes_to(message_type, data@, r),
    {
        match message_type {
            MessageType::BoardDump => {
                if data.len() == 64 {
                    match ChessBoard::new(data) {
                        Some(board) => {
                            proof {
                                assert forall|i: int|
                                    0 <= i < data@.len() implies piece_of_byte(
                                    #[trigger] data@[i],
                                ) is Some by {
                                    assert(Some(board@[i]) == piece_of_byte(data@[i]));
                                }
                            }
                            Ok(Response::BoardDump(board))
                        },
                        None => Err(ParseError::InvalidPiece),
                    }
                } else {
                    Err(ParseError::invalid_length(message_type, 64, data.len()))
                }
            },
            MessageType::BWTime => {
                if data.len() == 7 {
                    let white_time = Remaining::from_bcd([data[0], data[1], data[2]]);
                    let black_time = Remaining::from_bcd([data[3], data[4], data[5]]);
                    let status = ClockStatus::from_byte(data[6]);
                    Ok(Response::BWTime { white_time, black_time, status })
                } else {
                    Err(ParseError::invalid_length(message_type, 7, data.len()))
                }
            },
            MessageType::FieldUpdate => {
                if data.len() == 2 {
                    let grid = data[0];
                    if grid < 64 {
                        if let Some(piece) = RawPiece::try_from_byte(data[1]) {
                            Ok(Response::FieldUpdate(ChessMove::new(grid, piece)))
                        } else {
                            Err(ParseError::InvalidPiece)
                        }
                    } else {
                        Err(ParseError::InvalidMove)
                    }
                } else {
                    Err(ParseError::invalid_length(message_type, 2, data.len()))
                }
            },
            MessageType::SerialNumber => Ok(Response::SerialNumber(utf8_lossy(data))),
            MessageType::EEMoves => Err(ParseError::UnsupportedMessage),
            MessageType::BusAddress => Ok(Response::BusAddress(utf8_lossy(data))),
            MessageType::Trademark => Ok(Response::Trademark(utf8_lossy(data))),
            MessageType::Version => {
                if data.len() == 2 {
                    Ok(Response::Version(version_string(data[0], data[1])))
                } else {
                    Err(ParseError::invalid_length(message_type, 2, data.len()))
                }
            },
        }
    }
}

/// Decode one framed message: map the type code onto a message type, then
/// validate the payload against that type's schema. An unrecognized code is
/// rejected, never silently ignored.
pub fn decode_message(type_code: u8, data: &[u8]) -> (r: Result<Response, ParseError>)
    ensures
        match message_type_of_byte(type_code) {
            Some(t) => decodes_to(t, data@, r),
            None => r == Err::<Response, ParseError>(ParseError::UnknownMessageType),
        },
{
    match MessageType::try_from_byte(type_code) {
        Some(t) => Response::try_from_raw(t, data),
        None => Err(ParseError::UnknownMessageType),
    }
}

} // verus!
