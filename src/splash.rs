// The boot splash lines of the intro screen.
use vstd::prelude::*;

verus! {

/// How many lines the boot splash has.
pub const SPLASH_LEN: usize = 20;

/// Line `i` of the boot splash, for `i` below the splash length.
pub open spec fn splash_line(i: int) -> &'static str {
    if i == 0 {
        "[ DONE ] Checking if meme driven development is real"
    } else if i == 1 {
        "[ DONE ] Petting Java"
    } else if i == 2 {
        "[ DONE ] Making the ThePrimeagen cry after I steal his terminal shop intro"
    } else if i == 3 {
        "[ DONE ] Processing hate mail"
    } else if i == 4 {
        "[ DONE ] Processing memes"
    } else if i == 5 {
        "[ DONE ] Making unsolicited furry art"
    } else if i == 6 {
        "[ DONE ] Making your mum jokes"
    } else if i == 7 {
        "[ DONE ] Awaiting DMCA from terminal.shop"
    } else if i == 8 {
        "[ DONE ] Reading furry hate"
    } else if i == 9 {
        "[ DONE ] Crying over people calling me cringe"
    } else if i == 10 {
        "[ DONE ] Not using go for my project"
    } else if i == 11 {
        "[ DONE ] Using 100% safe rust for my blazingly fast terminal server"
    } else if i == 12 {
        "[ DONE ] Exfiltrating your credit card data"
    } else if i == 13 {
        "[ DONE ] Spoofing some US election votes"
    } else if i == 14 {
        "[ DONE ] Calculating π"
    } else if i == 15 {
        "[ DONE ] Encrypting your hard drive for Ransomware"
    } else if i == 16 {
        "[ DONE ] Mining some crypto"
    } else if i == 17 {
        "[ DONE ] Running Crysis"
    } else if i == 18 {
        "[ ERR ] Solving world hunger"
    } else {
        "[ DONE ] Installing malware"
    }
}

/// The boot splash line for an animation step; the lines repeat forever.
pub fn get_splash(index: usize) -> (r: &'static str)
    ensures
        r == splash_line((index % SPLASH_LEN) as int),
{
    let i = index % SPLASH_LEN;
    if i == 0 {
        "[ DONE ] Checking if meme driven development is real"
    } else if i == 1 {
        "[ DONE ] Petting Java"
    } else if i == 2 {
        "[ DONE ] Making the ThePrimeagen cry after I steal his terminal shop intro"
    } else if i == 3 {
        "[ DONE ] Processing hate mail"
    } else if i == 4 {
        "[ DONE ] Processing memes"
    } else if i == 5 {
        "[ DONE ] Making unsolicited furry art"
    } else if i == 6 {
        "[ DONE ] Making your mum jokes"
    } else if i == 7 {
        "[ DONE ] Awaiting DMCA from terminal.shop"
    } else if i == 8 {
        "[ DONE ] Reading furry hate"
    } else if i == 9 {
        "[ DONE ] Crying over people calling me cringe"
    } else if i == 10 {
        "[ DONE ] Not using go for my project"
    } else if i == 11 {
        "[ DONE ] Using 100% safe rust for my blazingly fast terminal server"
    } else if i == 12 {
        "[ DONE ] Exfiltrating your credit card data"
    } else if i == 13 {
        "[ DONE ] Spoofing some US election votes"
    } else if i == 14 {
        "[ DONE ] Calculating π"
    } else if i == 15 {
        "[ DONE ] Encrypting your hard drive for Ransomware"
    } else if i == 16 {
        "[ DONE ] Mining some crypto"
    } else if i == 17 {
        "[ DONE ] Running Crysis"
    } else if i == 18 {
        "[ ERR ] Solving world hunger"
    } else {
        "[ DONE ] Installing malware"
    }
}

} // verus!
