//! Lexical tokens and the cursor-level helpers the grammar is stated over.
//!
//! A token is a classified lexical unit paired with its source span (line,
//! start offset, end offset).  The token producer is expected to stop at an
//! end-of-input marker; positions past the end of the supplied sequence read
//! as that marker, so the cursor can always be advanced safely.

use vstd::prelude::*;

verus! {

/// The tag of one lexical unit.  `Identifier`, `Number` and `Str` carry the
/// payload the scanner attached; every other variant is a bare keyword,
/// operator or delimiter.  A numeric literal is carried as the IEEE-754 bit
/// pattern the scanner produced, so the parser itself never computes with it.
#[derive(Debug, PartialEq)]
pub enum TokenKind {
    Let,
    Const,
    Class,
    Function,
    Print,
    If,
    Else,
    While,
    For,
    Return,
    True,
    False,
    Super,
    This,
    Not,
    Identifier(String),
    Number(u64),
    Str(String),
    LParen,
    RParen,
    LBrace,
    RBrace,
    Semicolon,
    Comma,
    Dot,
    Assign,
    PlusEq,
    SubEq,
    MulEq,
    DivEq,
    ModEq,
    AndEq,
    OrEq,
    XorEq,
    Or,
    LAnd,
    Equal,
    NotEqual,
    Greater,
    GreaterEqual,
    Less,
    LessEqual,
    Plus,
    Minus,
    Times,
    Divide,
    And,
    Xor,
    Eof,
}

/// One lexical unit together with its source span.
#[derive(Debug, PartialEq)]
pub struct Token {
    pub kind: TokenKind,
    pub line: usize,
    pub start: usize,
    pub end: usize,
}

/// The end-of-input marker the cursor yields once the supplied tokens run out.
pub open spec fn eof_token() -> Token {
    Token { kind: TokenKind::Eof, line: 0, start: 0, end: 0 }
}

/// The token the cursor sees at position `p`: the element of `s` there, or
/// the end-of-input marker once `p` is past the end.
pub open spec fn at(s: Seq<Token>, p: int) -> Token {
    if 0 <= p < s.len() {
        s[p]
    } else {
        eof_token()
    }
}

/// The cursor position after one advance from `p`: the cursor never moves
/// past the end of the sequence, so advancing at end-of-input is a no-op and
/// keeps yielding the end-of-input marker.
pub open spec fn step(s: Seq<Token>, p: int) -> int {
    if 0 <= p < s.len() {
        p + 1
    } else {
        p
    }
}

/// Whether two token tags have the same discriminant.  For the payload
/// variants only the discriminant is compared, never the payload.
pub open spec fn same_kind(a: TokenKind, b: TokenKind) -> bool {
    match a {
        TokenKind::Let => b is Let,
        TokenKind::Const => b is Const,
        TokenKind::Class => b is Class,
        TokenKind::Function => b is Function,
        TokenKind::Print => b is Print,
        TokenKind::If => b is If,
        TokenKind::Else => b is Else,
        TokenKind::While => b is While,
        TokenKind::For => b is For,
        TokenKind::Return => b is Return,
        TokenKind::True => b is True,
        TokenKind::False => b is False,
        TokenKind::Super => b is Super,
        TokenKind::This => b is This,
        TokenKind::Not => b is Not,
        TokenKind::Identifier(_) => b is Identifier,
        TokenKind::Number(_) => b is Number,
        TokenKind::Str(_) => b is Str,
        TokenKind::LParen => b is LParen,
        TokenKind::RParen => b is RParen,
        TokenKind::LBrace => b is LBrace,
        TokenKind::RBrace => b is RBrace,
        TokenKind::Semicolon => b is Semicolon,
        TokenKind::Comma => b is Comma,
        TokenKind::Dot => b is Dot,
        TokenKind::Assign => b is Assign,
        TokenKind::PlusEq => b is PlusEq,
        TokenKind::SubEq => b is SubEq,
        TokenKind::MulEq => b is MulEq,
        TokenKind::DivEq => b is DivEq,
        TokenKind::ModEq => b is ModEq,
        TokenKind::AndEq => b is AndEq,
        TokenKind::OrEq => b is OrEq,
        TokenKind::XorEq => b is XorEq,
        TokenKind::Or => b is Or,
        TokenKind::LAnd => b is LAnd,
        TokenKind::Equal => b is Equal,
        TokenKind::NotEqual => b is NotEqual,
        TokenKind::Greater => b is Greater,
        TokenKind::GreaterEqual => b is GreaterEqual,
        TokenKind::Less => b is Less,
        TokenKind::LessEqual => b is LessEqual,
        TokenKind::Plus => b is Plus,
        TokenKind::Minus => b is Minus,
        TokenKind::Times => b is Times,
        TokenKind::Divide => b is Divide,
        TokenKind::And => b is And,
        TokenKind::Xor => b is Xor,
        TokenKind::Eof => b is Eof,
    }
}

/// Discriminant-only comparison of two token tags, the lookahead test every
/// production dispatches on.
pub fn kind_eq(a: &TokenKind, b: &TokenKind) -> (r: bool)
    ensures
        r == same_kind(*a, *b),
{
    match a {
        TokenKind::Let => matches!(b, TokenKind::Let),
        TokenKind::Const => matches!(b, TokenKind::Const),
        TokenKind::Class => matches!(b, TokenKind::Class),
        TokenKind::Function => matches!(b, TokenKind::Function),
        TokenKind::Print => matches!(b, TokenKind::Print),
        TokenKind::If => matches!(b, TokenKind::If),
        TokenKind::Else => matches!(b, TokenKind::Else),
        TokenKind::While => matches!(b, TokenKind::While),
        TokenKind::For => matches!(b, TokenKind::For),
        TokenKind::Return => matches!(b, TokenKind::Return),
        TokenKind::True => matches!(b, TokenKind::True),
        TokenKind::False => matches!(b, TokenKind::False),
        TokenKind::Super => matches!(b, TokenKind::Super),
        TokenKind::This => matches!(b, TokenKind::This),
        TokenKind::Not => matches!(b, TokenKind::Not),
        TokenKind::Identifier(_) => matches!(b, TokenKind::Identifier(_)),
        TokenKind::Number(_) => matches!(b, TokenKind::Number(_)),
        TokenKind::Str(_) => matches!(b, TokenKind::Str(_)),
        TokenKind::LParen => matches!(b, TokenKind::LParen),
        TokenKind::RParen => matches!(b, TokenKind::RParen),
        TokenKind::LBrace => matches!(b, TokenKind::LBrace),
        TokenKind::RBrace => matches!(b, TokenKind::RBrace),
        TokenKind::Semicolon => matches!(b, TokenKind::Semicolon),
        TokenKind::Comma => matches!(b, TokenKind::Comma),
        TokenKind::Dot => matches!(b, TokenKind::Dot),
        TokenKind::Assign => matches!(b, TokenKind::Assign),
        TokenKind::PlusEq => matches!(b, TokenKind::PlusEq),
        TokenKind::SubEq => matches!(b, TokenKind::SubEq),
        TokenKind::MulEq => matches!(b, TokenKind::MulEq),
        TokenKind::DivEq => matches!(b, TokenKind::DivEq),
        TokenKind::ModEq => matches!(b, TokenKind::ModEq),
        TokenKind::AndEq => matches!(b, TokenKind::AndEq),
        TokenKind::OrEq => matches!(b, TokenKind::OrEq),
        TokenKind::XorEq => matches!(b, TokenKind::XorEq),
        TokenKind::Or => matches!(b, TokenKind::Or),
        TokenKind::LAnd => matches!(b, TokenKind::LAnd),
        TokenKind::Equal => matches!(b, TokenKind::Equal),
        TokenKind::NotEqual => matches!(b, TokenKind::NotEqual),
        TokenKind::Greater => matches!(b, TokenKind::Greater),
        TokenKind::GreaterEqual => matches!(b, TokenKind::GreaterEqual),
        TokenKind::Less => matches!(b, TokenKind::Less),
        TokenKind::LessEqual => matches!(b, TokenKind::LessEqual),
        TokenKind::Plus => matches!(b, TokenKind::Plus),
        TokenKind::Minus => matches!(b, TokenKind::Minus),
        TokenKind::Times => matches!(b, TokenKind::Times),
        TokenKind::Divide => matches!(b, TokenKind::Divide),
        TokenKind::And => matches!(b, TokenKind::And),
        TokenKind::Xor => matches!(b, TokenKind::Xor),
        TokenKind::Eof => matches!(b, TokenKind::Eof),
    }
}

/// The name a token tag shows under in diagnostics.
pub open spec fn spec_kind_name(k: TokenKind) -> Seq<char> {
    match k {
        TokenKind::Let => "let"@,
        TokenKind::Const => "const"@,
        TokenKind::Class => "class"@,
        TokenKind::Function => "function"@,
        TokenKind::Print => "print"@,
        TokenKind::If => "if"@,
        TokenKind::Else => "else"@,
        TokenKind::While => "while"@,
        TokenKind::For => "for"@,
        TokenKind::Return => "return"@,
        TokenKind::True => "true"@,
        TokenKind::False => "false"@,
        TokenKind::Super => "super"@,
        TokenKind::This => "this"@,
        TokenKind::Not => "not"@,
        TokenKind::Identifier(_) => "Identifier"@,
        TokenKind::Number(_) => "Number"@,
        TokenKind::Str(_) => "String"@,
        TokenKind::LParen => "("@,
        TokenKind::RParen => ")"@,
        TokenKind::LBrace => "{"@,
        TokenKind::RBrace => "}"@,
        TokenKind::Semicolon => ";"@,
        TokenKind::Comma => ","@,
        TokenKind::Dot => "."@,
        TokenKind::Assign => "="@,
        TokenKind::PlusEq => "+="@,
        TokenKind::SubEq => "-="@,
        TokenKind::MulEq => "*="@,
        TokenKind::DivEq => "/="@,
        TokenKind::ModEq => "%="@,
        TokenKind::AndEq => "&="@,
        TokenKind::OrEq => "|="@,
        TokenKind::XorEq => "^="@,
        TokenKind::Or => "or"@,
        TokenKind::LAnd => "&&"@,
        TokenKind::Equal => "=="@,
        TokenKind::NotEqual => "!="@,
        TokenKind::Greater => ">"@,
        TokenKind::GreaterEqual => ">="@,
        TokenKind::Less => "<"@,
        TokenKind::LessEqual => "<="@,
        TokenKind::Plus => "+"@,
        TokenKind::Minus => "-"@,
        TokenKind::Times => "*"@,
        TokenKind::Divide => "/"@,
        TokenKind::And => "and"@,
        TokenKind::Xor => "xor"@,
        TokenKind::Eof => "EOF"@,
    }
}

/// The name a token tag shows under in diagnostics.
pub fn kind_name(k: &TokenKind) -> (r: &'static str)
    ensures
        r@ == spec_kind_name(*k),
{
    match k {
        TokenKind::Let => "let",
        TokenKind::Const => "const",
        TokenKind::Class => "class",
        TokenKind::Function => "function",
        TokenKind::Print => "print",
        TokenKind::If => "if",
        TokenKind::Else => "else",
        TokenKind::While => "while",
        TokenKind::For => "for",
        TokenKind::Return => "return",
        TokenKind::True => "true",
        TokenKind::False => "false",
        TokenKind::Super => "super",
        TokenKind::This => "this",
        TokenKind::Not => "not",
        TokenKind::Identifier(_) => "Identifier",
        TokenKind::Number(_) => "Number",
        TokenKind::Str(_) => "String",
        TokenKind::LParen => "(",
        TokenKind::RParen => ")",
        TokenKind::LBrace => "{",
        TokenKind::RBrace => "}",
        TokenKind::Semicolon => ";",
        TokenKind::Comma => ",",
        TokenKind::Dot => ".",
        TokenKind::Assign => "=",
        TokenKind::PlusEq => "+=",
        TokenKind::SubEq => "-=",
        TokenKind::MulEq => "*=",
        TokenKind::DivEq => "/=",
        TokenKind::ModEq => "%=",
        TokenKind::AndEq => "&=",
        TokenKind::OrEq => "|=",
        TokenKind::XorEq => "^=",
        TokenKind::Or => "or",
        TokenKind::LAnd => "&&",
        TokenKind::Equal => "==",
        TokenKind::NotEqual => "!=",
        TokenKind::Greater => ">",
        TokenKind::GreaterEqual => ">=",
        TokenKind::Less => "<",
        TokenKind::LessEqual => "<=",
        TokenKind::Plus => "+",
        TokenKind::Minus => "-",
        TokenKind::Times => "*",
        TokenKind::Divide => "/",
        TokenKind::And => "and",
        TokenKind::Xor => "xor",
        TokenKind::Eof => "EOF",
    }
}

} // verus!
