//! Mapping from the keyboard hook's virtual-key codes to the typed
//! characters the engine consumes: digits, letters (always lower case),
//! the token punctuation, space, and backspace; anything else is ignored.

use vstd::prelude::*;

verus! {

/// The character a virtual-key code stands for, or none when the engine
/// ignores the key.
pub open spec fn vk_char(vk_code: u32) -> Option<char> {
    if vk_code == 0x30 {
        Some('0')
    } else if vk_code == 0x31 {
        Some('1')
    } else if vk_code == 0x32 {
        Some('2')
    } else if vk_code == 0x33 {
        Some('3')
    } else if vk_code == 0x34 {
        Some('4')
    } else if vk_code == 0x35 {
        Some('5')
    } else if vk_code == 0x36 {
        Some('6')
    } else if vk_code == 0x37 {
        Some('7')
    } else if vk_code == 0x38 {
        Some('8')
    } else if vk_code == 0x39 {
        Some('9')
    } else if vk_code == 0x41 {
        Some('a')
    } else if vk_code == 0x42 {
        Some('b')
    } else if vk_code == 0x43 {
        Some('c')
    } else if vk_code == 0x44 {
        Some('d')
    } else if vk_code == 0x45 {
        Some('e')
    } else if vk_code == 0x46 {
        Some('f')
    } else if vk_code == 0x47 {
        Some('g')
    } else if vk_code == 0x48 {
        Some('h')
    } else if vk_code == 0x49 {
        Some('i')
    } else if vk_code == 0x4A {
        Some('j')
    } else if vk_code == 0x4B {
        Some('k')
    } else if vk_code == 0x4C {
        Some('l')
    } else if vk_code == 0x4D {
        Some('m')
    } else if vk_code == 0x4E {
        Some('n')
    } else if vk_code == 0x4F {
        Some('o')
    } else if vk_code == 0x50 {
        Some('p')
    } else if vk_code == 0x51 {
        Some('q')
    } else if vk_code == 0x52 {
        Some('r')
    } else if vk_code == 0x53 {
        Some('s')
    } else if vk_code == 0x54 {
        Some('t')
    } else if vk_code == 0x55 {
        Some('u')
    } else if vk_code == 0x56 {
        Some('v')
    } else if vk_code == 0x57 {
        Some('w')
    } else if vk_code == 0x58 {
        Some('x')
    } else if vk_code == 0x59 {
        Some('y')
    } else if vk_code == 0x5A {
        Some('z')
    } else if vk_code == 0xBF {
        Some('/')
    } else if vk_code == 0xBD {
        Some('-')
    } else if vk_code == 0xBE {
        Some('.')
    } else if vk_code == 0xBC {
        Some(',')
    } else if vk_code == 0x20 {
        Some(' ')
    } else if vk_code == 0x08 {
        Some('\x08')
    } else {
        None
    }
}

pub fn vk_to_char(vk_code: u32) -> (r: Option<char>)
    ensures
        r == vk_char(vk_code),
{
    if vk_code == 0x30 {
        Some('0')
    } else if vk_code == 0x31 {
        Some('1')
    } else if vk_code == 0x32 {
        Some('2')
    } else if vk_code == 0x33 {
        Some('3')
    } else if vk_code == 0x34 {
        Some('4')
    } else if vk_code == 0x35 {
        Some('5')
    } else if vk_code == 0x36 {
        Some('6')
    } else if vk_code == 0x37 {
        Some('7')
    } else if vk_code == 0x38 {
        Some('8')
    } else if vk_code == 0x39 {
        Some('9')
    } else if vk_code == 0x41 {
        Some('a')
    } else if vk_code == 0x42 {
        Some('b')
    } else if vk_code == 0x43 {
        Some('c')
    } else if vk_code == 0x44 {
        Some('d')
    } else if vk_code == 0x45 {
        Some('e')
    } else if vk_code == 0x46 {
        Some('f')
    } else if vk_code == 0x47 {
        Some('g')
    } else if vk_code == 0x48 {
        Some('h')
    } else if vk_code == 0x49 {
        Some('i')
    } else if vk_code == 0x4A {
        Some('j')
    } else if vk_code == 0x4B {
        Some('k')
    } else if vk_code == 0x4C {
        Some('l')
    } else if vk_code == 0x4D {
        Some('m')
    } else if vk_code == 0x4E {
        Some('n')
    } else if vk_code == 0x4F {
        Some('o')
    } else if vk_code == 0x50 {
        Some('p')
    } else if vk_code == 0x51 {
        Some('q')
    } else if vk_code == 0x52 {
        Some('r')
    } else if vk_code == 0x53 {
        Some('s')
    } else if vk_code == 0x54 {
        Some('t')
    } else if vk_code == 0x55 {
        Some('u')
    } else if vk_code == 0x56 {
        Some('v')
    } else if vk_code == 0x57 {
        Some('w')
    } else if vk_code == 0x58 {
        Some('x')
    } else if vk_code == 0x59 {
        Some('y')
    } else if vk_code == 0x5A {
        Some('z')
    } else if vk_code == 0xBF {
        Some('/')
    } else if vk_code == 0xBD {
        Some('-')
    } else if vk_code == 0xBE {
        Some('.')
    } else if vk_code == 0xBC {
        Some(',')
    } else if vk_code == 0x20 {
        Some(' ')
    } else if vk_code == 0x08 {
        Some('\x08')
    } else {
        None
    }
}

} // verus!
