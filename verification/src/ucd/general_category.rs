//! General_Category property tables of the Unicode Character Database (Unicode 14.0.0).
use vstd::prelude::*;

verus! {

/// The code points whose General_Category=Control (Cc), as ranges of scalar values.
pub open spec fn is_control(c: char) -> bool {
    let u = c as u32;
    ||| 0x0000 <= u <= 0x001F
    ||| 0x007F <= u <= 0x009F
}

/// Whether `c` has General_Category=Control (Cc).
pub fn in_control(c: char) -> (r: bool)
    ensures
        r == is_control(c),
{
    let u = c as u32;
    match u {
        0x0000..=0x001F | 0x007F..=0x009F => true,
        _ => false,
    }
}

/// The code points whose General_Category=Mark (Mn, Mc, Me), as ranges of scalar values.
pub open spec fn is_mark(c: char) -> bool {
    let u = c as u32;
    ||| 0x0300 <= u <= 0x036F
    ||| 0x0483 <= u <= 0x0489
    ||| 0x0591 <= u <= 0x05BD
    ||| u == 0x05BF
    ||| 0x05C1 <= u <= 0x05C2
    ||| 0x05C4 <= u <= 0x05C5
    ||| u == 0x05C7
    ||| 0x0610 <= u <= 0x061A
    ||| 0x064B <= u <= 0x065F
    ||| u == 0x0670
    ||| 0x06D6 <= u <= 0x06DC
    ||| 0x06DF <= u <= 0x06E4
    ||| 0x06E7 <= u <= 0x06E8
    ||| 0x06EA <= u <= 0x06ED
    ||| u == 0x0711
    ||| 0x0730 <= u <= 0x074A
    ||| 0x07A6 <= u <= 0x07B0
    ||| 0x07EB <= u <= 0x07F3
    ||| u == 0x07FD
    ||| 0x0816 <= u <= 0x0819
    ||| 0x081B <= u <= 0x0823
    ||| 0x0825 <= u <= 0x0827
    ||| 0x0829 <= u <= 0x082D
    ||| 0x0859 <= u <= 0x085B
    ||| 0x0898 <= u <= 0x089F
    ||| 0x08CA <= u <= 0x08E1
    ||| 0x08E3 <= u <= 0x0903
    ||| 0x093A <= u <= 0x093C
    ||| 0x093E <= u <= 0x094F
    ||| 0x0951 <= u <= 0x0957
    ||| 0x0962 <= u <= 0x0963
    ||| 0x0981 <= u <= 0x0983
    ||| u == 0x09BC
    ||| 0x09BE <= u <= 0x09C4
    ||| 0x09C7 <= u <= 0x09C8
    ||| 0x09CB <= u <= 0x09CD
    ||| u == 0x09D7
    ||| 0x09E2 <= u <= 0x09E3
    ||| u == 0x09FE
    ||| 0x0A01 <= u <= 0x0A03
    ||| u == 0x0A3C
    ||| 0x0A3E <= u <= 0x0A42
    ||| 0x0A47 <= u <= 0x0A48
    ||| 0x0A4B <= u <= 0x0A4D
    ||| u == 0x0A51
    ||| 0x0A70 <= u <= 0x0A71
    ||| u == 0x0A75
    ||| 0x0A81 <= u <= 0x0A83
    ||| u == 0x0ABC
    ||| 0x0ABE <= u <= 0x0AC5
    ||| 0x0AC7 <= u <= 0x0AC9
    ||| 0x0ACB <= u <= 0x0ACD
    ||| 0x0AE2 <= u <= 0x0AE3
    ||| 0x0AFA <= u <= 0x0AFF
    ||| 0x0B01 <= u <= 0x0B03
    ||| u == 0x0B3C
    ||| 0x0B3E <= u <= 0x0B44
    ||| 0x0B47 <= u <= 0x0B48
    ||| 0x0B4B <= u <= 0x0B4D
    ||| 0x0B55 <= u <= 0x0B57
    ||| 0x0B62 <= u <= 0x0B63
    ||| u == 0x0B82
    ||| 0x0BBE <= u <= 0x0BC2
    ||| 0x0BC6 <= u <= 0x0BC8
    ||| 0x0BCA <= u <= 0x0BCD
    ||| u == 0x0BD7
    ||| 0x0C00 <= u <= 0x0C04
    ||| u == 0x0C3C
    ||| 0x0C3E <= u <= 0x0C44
    ||| 0x0C46 <= u <= 0x0C48
    ||| 0x0C4A <= u <= 0x0C4D
    ||| 0x0C55 <= u <= 0x0C56
    ||| 0x0C62 <= u <= 0x0C63
    ||| 0x0C81 <= u <= 0x0C83
    ||| u == 0x0CBC
    ||| 0x0CBE <= u <= 0x0CC4
    ||| 0x0CC6 <= u <= 0x0CC8
    ||| 0x0CCA <= u <= 0x0CCD
    ||| 0x0CD5 <= u <= 0x0CD6
    ||| 0x0CE2 <= u <= 0x0CE3
    ||| 0x0D00 <= u <= 0x0D03
    ||| 0x0D3B <= u <= 0x0D3C
    ||| 0x0D3E <= u <= 0x0D44
    ||| 0x0D46 <= u <= 0x0D48
    ||| 0x0D4A <= u <= 0x0D4D
    ||| u == 0x0D57
    ||| 0x0D62 <= u <= 0x0D63
    ||| 0x0D81 <= u <= 0x0D83
    ||| u == 0x0DCA
    ||| 0x0DCF <= u <= 0x0DD4
    ||| u == 0x0DD6
    ||| 0x0DD8 <= u <= 0x0DDF
    ||| 0x0DF2 <= u <= 0x0DF3
    ||| u == 0x0E31
    ||| 0x0E34 <= u <= 0x0E3A
    ||| 0x0E47 <= u <= 0x0E4E
    ||| u == 0x0EB1
    ||| 0x0EB4 <= u <= 0x0EBC
    ||| 0x0EC8 <= u <= 0x0ECD
    ||| 0x0F18 <= u <= 0x0F19
    ||| u == 0x0F35
    ||| u == 0x0F37
    ||| u == 0x0F39
    ||| 0x0F3E <= u <= 0x0F3F
    ||| 0x0F71 <= u <= 0x0F84
    ||| 0x0F86 <= u <= 0x0F87
    ||| 0x0F8D <= u <= 0x0F97
    ||| 0x0F99 <= u <= 0x0FBC
    ||| u == 0x0FC6
    ||| 0x102B <= u <= 0x103E
    ||| 0x1056 <= u <= 0x1059
    ||| 0x105E <= u <= 0x1060
    ||| 0x1062 <= u <= 0x1064
    ||| 0x1067 <= u <= 0x106D
    ||| 0x1071 <= u <= 0x1074
    ||| 0x1082 <= u <= 0x108D
    ||| u == 0x108F
    ||| 0x109A <= u <= 0x109D
    ||| 0x135D <= u <= 0x135F
    ||| 0x1712 <= u <= 0x1715
    ||| 0x1732 <= u <= 0x1734
    ||| 0x1752 <= u <= 0x1753
    ||| 0x1772 <= u <= 0x1773
    ||| 0x17B4 <= u <= 0x17D3
    ||| u == 0x17DD
    ||| 0x180B <= u <= 0x180D
    ||| u == 0x180F
    ||| 0x1885 <= u <= 0x1886
    ||| u == 0x18A9
    ||| 0x1920 <= u <= 0x192B
    ||| 0x1930 <= u <= 0x193B
    ||| 0x1A17 <= u <= 0x1A1B
    ||| 0x1A55 <= u <= 0x1A5E
    ||| 0x1A60 <= u <= 0x1A7C
    ||| u == 0x1A7F
    ||| 0x1AB0 <= u <= 0x1ACE
    ||| 0x1B00 <= u <= 0x1B04
    ||| 0x1B34 <= u <= 0x1B44
    ||| 0x1B6B <= u <= 0x1B73
    ||| 0x1B80 <= u <= 0x1B82
    ||| 0x1BA1 <= u <= 0x1BAD
    ||| 0x1BE6 <= u <= 0x1BF3
    ||| 0x1C24 <= u <= 0x1C37
    ||| 0x1CD0 <= u <= 0x1CD2
    ||| 0x1CD4 <= u <= 0x1CE8
    ||| u == 0x1CED
    ||| u == 0x1CF4
    ||| 0x1CF7 <= u <= 0x1CF9
    ||| 0x1DC0 <= u <= 0x1DFF
    ||| 0x20D0 <= u <= 0x20F0
    ||| 0x2CEF <= u <= 0x2CF1
    ||| u == 0x2D7F
    ||| 0x2DE0 <= u <= 0x2DFF
    ||| 0x302A <= u <= 0x302F
    ||| 0x3099 <= u <= 0x309A
    ||| 0xA66F <= u <= 0xA672
    ||| 0xA674 <= u <= 0xA67D
    ||| 0xA69E <= u <= 0xA69F
    ||| 0xA6F0 <= u <= 0xA6F1
    ||| u == 0xA802
    ||| u == 0xA806
    ||| u == 0xA80B
    ||| 0xA823 <= u <= 0xA827
    ||| u == 0xA82C
    ||| 0xA880 <= u <= 0xA881
    ||| 0xA8B4 <= u <= 0xA8C5
    ||| 0xA8E0 <= u <= 0xA8F1
    ||| u == 0xA8FF
    ||| 0xA926 <= u <= 0xA92D
    ||| 0xA947 <= u <= 0xA953
    ||| 0xA980 <= u <= 0xA983
    ||| 0xA9B3 <= u <= 0xA9C0
    ||| u == 0xA9E5
    ||| 0xAA29 <= u <= 0xAA36
    ||| u == 0xAA43
    ||| 0xAA4C <= u <= 0xAA4D
    ||| 0xAA7B <= u <= 0xAA7D
    ||| u == 0xAAB0
    ||| 0xAAB2 <= u <= 0xAAB4
    ||| 0xAAB7 <= u <= 0xAAB8
    ||| 0xAABE <= u <= 0xAABF
    ||| u == 0xAAC1
    ||| 0xAAEB <= u <= 0xAAEF
    ||| 0xAAF5 <= u <= 0xAAF6
    ||| 0xABE3 <= u <= 0xABEA
    ||| 0xABEC <= u <= 0xABED
    ||| u == 0xFB1E
    ||| 0xFE00 <= u <= 0xFE0F
    ||| 0xFE20 <= u <= 0xFE2F
    ||| u == 0x101FD
    ||| u == 0x102E0
    ||| 0x10376 <= u <= 0x1037A
    ||| 0x10A01 <= u <= 0x10A03
    ||| 0x10A05 <= u <= 0x10A06
    ||| 0x10A0C <= u <= 0x10A0F
    ||| 0x10A38 <= u <= 0x10A3A
    ||| u == 0x10A3F
    ||| 0x10AE5 <= u <= 0x10AE6
    ||| 0x10D24 <= u <= 0x10D27
    ||| 0x10EAB <= u <= 0x10EAC
    ||| 0x10F46 <= u <= 0x10F50
    ||| 0x10F82 <= u <= 0x10F85
    ||| 0x11000 <= u <= 0x11002
    ||| 0x11038 <= u <= 0x11046
    ||| u == 0x11070
    ||| 0x11073 <= u <= 0x11074
    ||| 0x1107F <= u <= 0x11082
    ||| 0x110B0 <= u <= 0x110BA
    ||| u == 0x110C2
    ||| 0x11100 <= u <= 0x11102
    ||| 0x11127 <= u <= 0x11134
    ||| 0x11145 <= u <= 0x11146
    ||| u == 0x11173
    ||| 0x11180 <= u <= 0x11182
    ||| 0x111B3 <= u <= 0x111C0
    ||| 0x111C9 <= u <= 0x111CC
    ||| 0x111CE <= u <= 0x111CF
    ||| 0x1122C <= u <= 0x11237
    ||| u == 0x1123E
    ||| 0x112DF <= u <= 0x112EA
    ||| 0x11300 <= u <= 0x11303
    ||| 0x1133B <= u <= 0x1133C
    ||| 0x1133E <= u <= 0x11344
    ||| 0x11347 <= u <= 0x11348
    ||| 0x1134B <= u <= 0x1134D
    ||| u == 0x11357
    ||| 0x11362 <= u <= 0x11363
    ||| 0x11366 <= u <= 0x1136C
    ||| 0x11370 <= u <= 0x11374
    ||| 0x11435 <= u <= 0x11446
    ||| u == 0x1145E
    ||| 0x114B0 <= u <= 0x114C3
    ||| 0x115AF <= u <= 0x115B5
    ||| 0x115B8 <= u <= 0x115C0
    ||| 0x115DC <= u <= 0x115DD
    ||| 0x11630 <= u <= 0x11640
    ||| 0x116AB <= u <= 0x116B7
    ||| 0x1171D <= u <= 0x1172B
    ||| 0x1182C <= u <= 0x1183A
    ||| 0x11930 <= u <= 0x11935
    ||| 0x11937 <= u <= 0x11938
    ||| 0x1193B <= u <= 0x1193E
    ||| u == 0x11940
    ||| 0x11942 <= u <= 0x11943
    ||| 0x119D1 <= u <= 0x119D7
    ||| 0x119DA <= u <= 0x119E0
    ||| u == 0x119E4
    ||| 0x11A01 <= u <= 0x11A0A
    ||| 0x11A33 <= u <= 0x11A39
    ||| 0x11A3B <= u <= 0x11A3E
    ||| u == 0x11A47
    ||| 0x11A51 <= u <= 0x11A5B
    ||| 0x11A8A <= u <= 0x11A99
    ||| 0x11C2F <= u <= 0x11C36
    ||| 0x11C38 <= u <= 0x11C3F
    ||| 0x11C92 <= u <= 0x11CA7
    ||| 0x11CA9 <= u <= 0x11CB6
    ||| 0x11D31 <= u <= 0x11D36
    ||| u == 0x11D3A
    ||| 0x11D3C <= u <= 0x11D3D
    ||| 0x11D3F <= u <= 0x11D45
    ||| u == 0x11D47
    ||| 0x11D8A <= u <= 0x11D8E
    ||| 0x11D90 <= u <= 0x11D91
    ||| 0x11D93 <= u <= 0x11D97
    ||| 0x11EF3 <= u <= 0x11EF6
    ||| 0x16AF0 <= u <= 0x16AF4
    ||| 0x16B30 <= u <= 0x16B36
    ||| u == 0x16F4F
    ||| 0x16F51 <= u <= 0x16F87
    ||| 0x16F8F <= u <= 0x16F92
    ||| u == 0x16FE4
    ||| 0x16FF0 <= u <= 0x16FF1
    ||| 0x1BC9D <= u <= 0x1BC9E
    ||| 0x1CF00 <= u <= 0x1CF2D
    ||| 0x1CF30 <= u <= 0x1CF46
    ||| 0x1D165 <= u <= 0x1D169
    ||| 0x1D16D <= u <= 0x1D172
    ||| 0x1D17B <= u <= 0x1D182
    ||| 0x1D185 <= u <= 0x1D18B
    ||| 0x1D1AA <= u <= 0x1D1AD
    ||| 0x1D242 <= u <= 0x1D244
    ||| 0x1DA00 <= u <= 0x1DA36
    ||| 0x1DA3B <= u <= 0x1DA6C
    ||| u == 0x1DA75
    ||| u == 0x1DA84
    ||| 0x1DA9B <= u <= 0x1DA9F
    ||| 0x1DAA1 <= u <= 0x1DAAF
    ||| 0x1E000 <= u <= 0x1E006
    ||| 0x1E008 <= u <= 0x1E018
    ||| 0x1E01B <= u <= 0x1E021
    ||| 0x1E023 <= u <= 0x1E024
    ||| 0x1E026 <= u <= 0x1E02A
    ||| 0x1E130 <= u <= 0x1E136
    ||| u == 0x1E2AE
    ||| 0x1E2EC <= u <= 0x1E2EF
    ||| 0x1E8D0 <= u <= 0x1E8D6
    ||| 0x1E944 <= u <= 0x1E94A
    ||| 0xE0100 <= u <= 0xE01EF
}

/// Whether `c` has General_Category=Mark (Mn, Mc, Me).
pub fn in_mark(c: char) -> (r: bool)
    ensures
        r == is_mark(c),
{
    let u = c as u32;
    match u {
        0x0300..=0x036F | 0x0483..=0x0489 | 0x0591..=0x05BD | 0x05BF | 0x05C1..=0x05C2 |
        0x05C4..=0x05C5 | 0x05C7 | 0x0610..=0x061A | 0x064B..=0x065F | 0x0670 |
        0x06D6..=0x06DC | 0x06DF..=0x06E4 | 0x06E7..=0x06E8 | 0x06EA..=0x06ED | 0x0711 |
        0x0730..=0x074A | 0x07A6..=0x07B0 | 0x07EB..=0x07F3 | 0x07FD | 0x0816..=0x0819 |
        0x081B..=0x0823 | 0x0825..=0x0827 | 0x0829..=0x082D | 0x0859..=0x085B |
        0x0898..=0x089F | 0x08CA..=0x08E1 | 0x08E3..=0x0903 | 0x093A..=0x093C |
        0x093E..=0x094F | 0x0951..=0x0957 | 0x0962..=0x0963 | 0x0981..=0x0983 | 0x09BC |
        0x09BE..=0x09C4 | 0x09C7..=0x09C8 | 0x09CB..=0x09CD | 0x09D7 | 0x09E2..=0x09E3 |
        0x09FE | 0x0A01..=0x0A03 | 0x0A3C | 0x0A3E..=0x0A42 | 0x0A47..=0x0A48 |
        0x0A4B..=0x0A4D | 0x0A51 | 0x0A70..=0x0A71 | 0x0A75 | 0x0A81..=0x0A83 | 0x0ABC |
        0x0ABE..=0x0AC5 | 0x0AC7..=0x0AC9 | 0x0ACB..=0x0ACD | 0x0AE2..=0x0AE3 |
        0x0AFA..=0x0AFF | 0x0B01..=0x0B03 | 0x0B3C | 0x0B3E..=0x0B44 | 0x0B47..=0x0B48 |
        0x0B4B..=0x0B4D | 0x0B55..=0x0B57 | 0x0B62..=0x0B63 | 0x0B82 | 0x0BBE..=0x0BC2 |
        0x0BC6..=0x0BC8 | 0x0BCA..=0x0BCD | 0x0BD7 | 0x0C00..=0x0C04 | 0x0C3C |
        0x0C3E..=0x0C44 | 0x0C46..=0x0C48 | 0x0C4A..=0x0C4D | 0x0C55..=0x0C56 |
        0x0C62..=0x0C63 | 0x0C81..=0x0C83 | 0x0CBC | 0x0CBE..=0x0CC4 | 0x0CC6..=0x0CC8 |
        0x0CCA..=0x0CCD | 0x0CD5..=0x0CD6 | 0x0CE2..=0x0CE3 | 0x0D00..=0x0D03 |
        0x0D3B..=0x0D3C | 0x0D3E..=0x0D44 | 0x0D46..=0x0D48 | 0x0D4A..=0x0D4D | 0x0D57 |
        0x0D62..=0x0D63 | 0x0D81..=0x0D83 | 0x0DCA | 0x0DCF..=0x0DD4 | 0x0DD6 |
        0x0DD8..=0x0DDF | 0x0DF2..=0x0DF3 | 0x0E31 | 0x0E34..=0x0E3A | 0x0E47..=0x0E4E |
        0x0EB1 | 0x0EB4..=0x0EBC | 0x0EC8..=0x0ECD | 0x0F18..=0x0F19 | 0x0F35 | 0x0F37 |
        0x0F39 | 0x0F3E..=0x0F3F | 0x0F71..=0x0F84 | 0x0F86..=0x0F87 | 0x0F8D..=0x0F97 |
        0x0F99..=0x0FBC | 0x0FC6 | 0x102B..=0x103E | 0x1056..=0x1059 | 0x105E..=0x1060 |
        0x1062..=0x1064 | 0x1067..=0x106D | 0x1071..=0x1074 | 0x1082..=0x108D | 0x108F |
        0x109A..=0x109D | 0x135D..=0x135F | 0x1712..=0x1715 | 0x1732..=0x1734 |
        0x1752..=0x1753 | 0x1772..=0x1773 | 0x17B4..=0x17D3 | 0x17DD | 0x180B..=0x180D |
        0x180F | 0x1885..=0x1886 | 0x18A9 | 0x1920..=0x192B | 0x1930..=0x193B |
        0x1A17..=0x1A1B | 0x1A55..=0x1A5E | 0x1A60..=0x1A7C | 0x1A7F | 0x1AB0..=0x1ACE |
        0x1B00..=0x1B04 | 0x1B34..=0x1B44 | 0x1B6B..=0x1B73 | 0x1B80..=0x1B82 |
        0x1BA1..=0x1BAD | 0x1BE6..=0x1BF3 | 0x1C24..=0x1C37 | 0x1CD0..=0x1CD2 |
        0x1CD4..=0x1CE8 | 0x1CED | 0x1CF4 | 0x1CF7..=0x1CF9 | 0x1DC0..=0x1DFF |
        0x20D0..=0x20F0 | 0x2CEF..=0x2CF1 | 0x2D7F | 0x2DE0..=0x2DFF | 0x302A..=0x302F |
        0x3099..=0x309A | 0xA66F..=0xA672 | 0xA674..=0xA67D | 0xA69E..=0xA69F |
        0xA6F0..=0xA6F1 | 0xA802 | 0xA806 | 0xA80B | 0xA823..=0xA827 | 0xA82C |
        0xA880..=0xA881 | 0xA8B4..=0xA8C5 | 0xA8E0..=0xA8F1 | 0xA8FF | 0xA926..=0xA92D |
        0xA947..=0xA953 | 0xA980..=0xA983 | 0xA9B3..=0xA9C0 | 0xA9E5 | 0xAA29..=0xAA36 |
        0xAA43 | 0xAA4C..=0xAA4D | 0xAA7B..=0xAA7D | 0xAAB0 | 0xAAB2..=0xAAB4 |
        0xAAB7..=0xAAB8 | 0xAABE..=0xAABF | 0xAAC1 | 0xAAEB..=0xAAEF | 0xAAF5..=0xAAF6 |
        0xABE3..=0xABEA | 0xABEC..=0xABED | 0xFB1E | 0xFE00..=0xFE0F | 0xFE20..=0xFE2F |
        0x101FD | 0x102E0 | 0x10376..=0x1037A | 0x10A01..=0x10A03 | 0x10A05..=0x10A06 |
        0x10A0C..=0x10A0F | 0x10A38..=0x10A3A | 0x10A3F | 0x10AE5..=0x10AE6 |
        0x10D24..=0x10D27 | 0x10EAB..=0x10EAC | 0x10F46..=0x10F50 | 0x10F82..=0x10F85 |
        0x11000..=0x11002 | 0x11038..=0x11046 | 0x11070 | 0x11073..=0x11074 |
        0x1107F..=0x11082 | 0x110B0..=0x110BA | 0x110C2 | 0x11100..=0x11102 |
        0x11127..=0x11134 | 0x11145..=0x11146 | 0x11173 | 0x11180..=0x11182 |
        0x111B3..=0x111C0 | 0x111C9..=0x111CC | 0x111CE..=0x111CF | 0x1122C..=0x11237 |
        0x1123E | 0x112DF..=0x112EA | 0x11300..=0x11303 | 0x1133B..=0x1133C |
        0x1133E..=0x11344 | 0x11347..=0x11348 | 0x1134B..=0x1134D | 0x11357 |
        0x11362..=0x11363 | 0x11366..=0x1136C | 0x11370..=0x11374 | 0x11435..=0x11446 |
        0x1145E | 0x114B0..=0x114C3 | 0x115AF..=0x115B5 | 0x115B8..=0x115C0 |
        0x115DC..=0x115DD | 0x11630..=0x11640 | 0x116AB..=0x116B7 | 0x1171D..=0x1172B |
        0x1182C..=0x1183A | 0x11930..=0x11935 | 0x11937..=0x11938 | 0x1193B..=0x1193E |
        0x11940 | 0x11942..=0x11943 | 0x119D1..=0x119D7 | 0x119DA..=0x119E0 | 0x119E4 |
        0x11A01..=0x11A0A | 0x11A33..=0x11A39 | 0x11A3B..=0x11A3E | 0x11A47 |
        0x11A51..=0x11A5B | 0x11A8A..=0x11A99 | 0x11C2F..=0x11C36 | 0x11C38..=0x11C3F |
        0x11C92..=0x11CA7 | 0x11CA9..=0x11CB6 | 0x11D31..=0x11D36 | 0x11D3A |
        0x11D3C..=0x11D3D | 0x11D3F..=0x11D45 | 0x11D47 | 0x11D8A..=0x11D8E |
        0x11D90..=0x11D91 | 0x11D93..=0x11D97 | 0x11EF3..=0x11EF6 | 0x16AF0..=0x16AF4 |
        0x16B30..=0x16B36 | 0x16F4F | 0x16F51..=0x16F87 | 0x16F8F..=0x16F92 | 0x16FE4 |
        0x16FF0..=0x16FF1 | 0x1BC9D..=0x1BC9E | 0x1CF00..=0x1CF2D | 0x1CF30..=0x1CF46 |
        0x1D165..=0x1D169 | 0x1D16D..=0x1D172 | 0x1D17B..=0x1D182 | 0x1D185..=0x1D18B |
        0x1D1AA..=0x1D1AD | 0x1D242..=0x1D244 | 0x1DA00..=0x1DA36 | 0x1DA3B..=0x1DA6C |
        0x1DA75 | 0x1DA84 | 0x1DA9B..=0x1DA9F | 0x1DAA1..=0x1DAAF | 0x1E000..=0x1E006 |
        0x1E008..=0x1E018 | 0x1E01B..=0x1E021 | 0x1E023..=0x1E024 | 0x1E026..=0x1E02A |
        0x1E130..=0x1E136 | 0x1E2AE | 0x1E2EC..=0x1E2EF | 0x1E8D0..=0x1E8D6 |
        0x1E944..=0x1E94A | 0xE0100..=0xE01EF => true,
        _ => false,
    }
}

/// The code points whose General_Category=Modifier_Symbol (Sk), as ranges of scalar values.
pub open spec fn is_modifier_symbol(c: char) -> bool {
    let u = c as u32;
    ||| u == 0x005E
    ||| u == 0x0060
    ||| u == 0x00A8
    ||| u == 0x00AF
    ||| u == 0x00B4
    ||| u == 0x00B8
    ||| 0x02C2 <= u <= 0x02C5
    ||| 0x02D2 <= u <= 0x02DF
    ||| 0x02E5 <= u <= 0x02EB
    ||| u == 0x02ED
    ||| 0x02EF <= u <= 0x02FF
    ||| u == 0x0375
    ||| 0x0384 <= u <= 0x0385
    ||| u == 0x0888
    ||| u == 0x1FBD
    ||| 0x1FBF <= u <= 0x1FC1
    ||| 0x1FCD <= u <= 0x1FCF
    ||| 0x1FDD <= u <= 0x1FDF
    ||| 0x1FED <= u <= 0x1FEF
    ||| 0x1FFD <= u <= 0x1FFE
    ||| 0x309B <= u <= 0x309C
    ||| 0xA700 <= u <= 0xA716
    ||| 0xA720 <= u <= 0xA721
    ||| 0xA789 <= u <= 0xA78A
    ||| u == 0xAB5B
    ||| 0xAB6A <= u <= 0xAB6B
    ||| 0xFBB2 <= u <= 0xFBC2
    ||| u == 0xFF3E
    ||| u == 0xFF40
    ||| u == 0xFFE3
    ||| 0x1F3FB <= u <= 0x1F3FF
}

/// Whether `c` has General_Category=Modifier_Symbol (Sk).
pub fn in_modifier_symbol(c: char) -> (r: bool)
    ensures
        r == is_modifier_symbol(c),
{
    let u = c as u32;
    match u {
        0x005E | 0x0060 | 0x00A8 | 0x00AF | 0x00B4 | 0x00B8 | 0x02C2..=0x02C5 |
        0x02D2..=0x02DF | 0x02E5..=0x02EB | 0x02ED | 0x02EF..=0x02FF | 0x0375 |
        0x0384..=0x0385 | 0x0888 | 0x1FBD | 0x1FBF..=0x1FC1 | 0x1FCD..=0x1FCF |
        0x1FDD..=0x1FDF | 0x1FED..=0x1FEF | 0x1FFD..=0x1FFE | 0x309B..=0x309C |
        0xA700..=0xA716 | 0xA720..=0xA721 | 0xA789..=0xA78A | 0xAB5B | 0xAB6A..=0xAB6B |
        0xFBB2..=0xFBC2 | 0xFF3E | 0xFF40 | 0xFFE3 | 0x1F3FB..=0x1F3FF => true,
        _ => false,
    }
}

/// The code points whose General_Category=Number (Nd, Nl, No), as ranges of scalar values.
pub open spec fn is_number(c: char) -> bool {
    let u = c as u32;
    ||| 0x0030 <= u <= 0x0039
    ||| 0x00B2 <= u <= 0x00B3
    ||| u == 0x00B9
    ||| 0x00BC <= u <= 0x00BE
    ||| 0x0660 <= u <= 0x0669
    ||| 0x06F0 <= u <= 0x06F9
    ||| 0x07C0 <= u <= 0x07C9
    ||| 0x0966 <= u <= 0x096F
    ||| 0x09E6 <= u <= 0x09EF
    ||| 0x09F4 <= u <= 0x09F9
    ||| 0x0A66 <= u <= 0x0A6F
    ||| 0x0AE6 <= u <= 0x0AEF
    ||| 0x0B66 <= u <= 0x0B6F
    ||| 0x0B72 <= u <= 0x0B77
    ||| 0x0BE6 <= u <= 0x0BF2
    ||| 0x0C66 <= u <= 0x0C6F
    ||| 0x0C78 <= u <= 0x0C7E
    ||| 0x0CE6 <= u <= 0x0CEF
    ||| 0x0D58 <= u <= 0x0D5E
    ||| 0x0D66 <= u <= 0x0D78
    ||| 0x0DE6 <= u <= 0x0DEF
    ||| 0x0E50 <= u <= 0x0E59
    ||| 0x0ED0 <= u <= 0x0ED9
    ||| 0x0F20 <= u <= 0x0F33
    ||| 0x1040 <= u <= 0x1049
    ||| 0x1090 <= u <= 0x1099
    ||| 0x1369 <= u <= 0x137C
    ||| 0x16EE <= u <= 0x16F0
    ||| 0x17E0 <= u <= 0x17E9
    ||| 0x17F0 <= u <= 0x17F9
    ||| 0x1810 <= u <= 0x1819
    ||| 0x1946 <= u <= 0x194F
    ||| 0x19D0 <= u <= 0x19DA
    ||| 0x1A80 <= u <= 0x1A89
    ||| 0x1A90 <= u <= 0x1A99
    ||| 0x1B50 <= u <= 0x1B59
    ||| 0x1BB0 <= u <= 0x1BB9
    ||| 0x1C40 <= u <= 0x1C49
    ||| 0x1C50 <= u <= 0x1C59
    ||| u == 0x2070
    ||| 0x2074 <= u <= 0x2079
    ||| 0x2080 <= u <= 0x2089
    ||| 0x2150 <= u <= 0x2182
    ||| 0x2185 <= u <= 0x2189
    ||| 0x2460 <= u <= 0x249B
    ||| 0x24EA <= u <= 0x24FF
    ||| 0x2776 <= u <= 0x2793
    ||| u == 0x2CFD
    ||| u == 0x3007
    ||| 0x3021 <= u <= 0x3029
    ||| 0x3038 <= u <= 0x303A
    ||| 0x3192 <= u <= 0x3195
    ||| 0x3220 <= u <= 0x3229
    ||| 0x3248 <= u <= 0x324F
    ||| 0x3251 <= u <= 0x325F
    ||| 0x3280 <= u <= 0x3289
    ||| 0x32B1 <= u <= 0x32BF
    ||| 0xA620 <= u <= 0xA629
    ||| 0xA6E6 <= u <= 0xA6EF
    ||| 0xA830 <= u <= 0xA835
    ||| 0xA8D0 <= u <= 0xA8D9
    ||| 0xA900 <= u <= 0xA909
    ||| 0xA9D0 <= u <= 0xA9D9
    ||| 0xA9F0 <= u <= 0xA9F9
    ||| 0xAA50 <= u <= 0xAA59
    ||| 0xABF0 <= u <= 0xABF9
    ||| 0xFF10 <= u <= 0xFF19
    ||| 0x10107 <= u <= 0x10133
    ||| 0x10140 <= u <= 0x10178
    ||| 0x1018A <= u <= 0x1018B
    ||| 0x102E1 <= u <= 0x102FB
    ||| 0x10320 <= u <= 0x10323
    ||| u == 0x10341
    ||| u == 0x1034A
    ||| 0x103D1 <= u <= 0x103D5
    ||| 0x104A0 <= u <= 0x104A9
    ||| 0x10858 <= u <= 0x1085F
    ||| 0x10879 <= u <= 0x1087F
    ||| 0x108A7 <= u <= 0x108AF
    ||| 0x108FB <= u <= 0x108FF
    ||| 0x10916 <= u <= 0x1091B
    ||| 0x109BC <= u <= 0x109BD
    ||| 0x109C0 <= u <= 0x109CF
    ||| 0x109D2 <= u <= 0x109FF
    ||| 0x10A40 <= u <= 0x10A48
    ||| 0x10A7D <= u <= 0x10A7E
    ||| 0x10A9D <= u <= 0x10A9F
    ||| 0x10AEB <= u <= 0x10AEF
    ||| 0x10B58 <= u <= 0x10B5F
    ||| 0x10B78 <= u <= 0x10B7F
    ||| 0x10BA9 <= u <= 0x10BAF
    ||| 0x10CFA <= u <= 0x10CFF
    ||| 0x10D30 <= u <= 0x10D39
    ||| 0x10E60 <= u <= 0x10E7E
    ||| 0x10F1D <= u <= 0x10F26
    ||| 0x10F51 <= u <= 0x10F54
    ||| 0x10FC5 <= u <= 0x10FCB
    ||| 0x11052 <= u <= 0x1106F
    ||| 0x110F0 <= u <= 0x110F9
    ||| 0x11136 <= u <= 0x1113F
    ||| 0x111D0 <= u <= 0x111D9
    ||| 0x111E1 <= u <= 0x111F4
    ||| 0x112F0 <= u <= 0x112F9
    ||| 0x11450 <= u <= 0x11459
    ||| 0x114D0 <= u <= 0x114D9
    ||| 0x11650 <= u <= 0x11659
    ||| 0x116C0 <= u <= 0x116C9
    ||| 0x11730 <= u <= 0x1173B
    ||| 0x118E0 <= u <= 0x118F2
    ||| 0x11950 <= u <= 0x11959
    ||| 0x11C50 <= u <= 0x11C6C
    ||| 0x11D50 <= u <= 0x11D59
    ||| 0x11DA0 <= u <= 0x11DA9
    ||| 0x11FC0 <= u <= 0x11FD4
    ||| 0x12400 <= u <= 0x1246E
    ||| 0x16A60 <= u <= 0x16A69
    ||| 0x16AC0 <= u <= 0x16AC9
    ||| 0x16B50 <= u <= 0x16B59
    ||| 0x16B5B <= u <= 0x16B61
    ||| 0x16E80 <= u <= 0x16E96
    ||| 0x1D2E0 <= u <= 0x1D2F3
    ||| 0x1D360 <= u <= 0x1D378
    ||| 0x1D7CE <= u <= 0x1D7FF
    ||| 0x1E140 <= u <= 0x1E149
    ||| 0x1E2F0 <= u <= 0x1E2F9
    ||| 0x1E8C7 <= u <= 0x1E8CF
    ||| 0x1E950 <= u <= 0x1E959
    ||| 0x1EC71 <= u <= 0x1ECAB
    ||| 0x1ECAD <= u <= 0x1ECAF
    ||| 0x1ECB1 <= u <= 0x1ECB4
    ||| 0x1ED01 <= u <= 0x1ED2D
    ||| 0x1ED2F <= u <= 0x1ED3D
    ||| 0x1F100 <= u <= 0x1F10C
    ||| 0x1FBF0 <= u <= 0x1FBF9
}

/// Whether `c` has General_Category=Number (Nd, Nl, No).
pub fn in_number(c: char) -> (r: bool)
    ensures
        r == is_number(c),
{
    let u = c as u32;
    match u {
        0x0030..=0x0039 | 0x00B2..=0x00B3 | 0x00B9 | 0x00BC..=0x00BE | 0x0660..=0x0669 |
        0x06F0..=0x06F9 | 0x07C0..=0x07C9 | 0x0966..=0x096F | 0x09E6..=0x09EF |
        0x09F4..=0x09F9 | 0x0A66..=0x0A6F | 0x0AE6..=0x0AEF | 0x0B66..=0x0B6F |
        0x0B72..=0x0B77 | 0x0BE6..=0x0BF2 | 0x0C66..=0x0C6F | 0x0C78..=0x0C7E |
        0x0CE6..=0x0CEF | 0x0D58..=0x0D5E | 0x0D66..=0x0D78 | 0x0DE6..=0x0DEF |
        0x0E50..=0x0E59 | 0x0ED0..=0x0ED9 | 0x0F20..=0x0F33 | 0x1040..=0x1049 |
        0x1090..=0x1099 | 0x1369..=0x137C | 0x16EE..=0x16F0 | 0x17E0..=0x17E9 |
        0x17F0..=0x17F9 | 0x1810..=0x1819 | 0x1946..=0x194F | 0x19D0..=0x19DA |
        0x1A80..=0x1A89 | 0x1A90..=0x1A99 | 0x1B50..=0x1B59 | 0x1BB0..=0x1BB9 |
        0x1C40..=0x1C49 | 0x1C50..=0x1C59 | 0x2070 | 0x2074..=0x2079 | 0x2080..=0x2089 |
        0x2150..=0x2182 | 0x2185..=0x2189 | 0x2460..=0x249B | 0x24EA..=0x24FF |
        0x2776..=0x2793 | 0x2CFD | 0x3007 | 0x3021..=0x3029 | 0x3038..=0x303A |
        0x3192..=0x3195 | 0x3220..=0x3229 | 0x3248..=0x324F | 0x3251..=0x325F |
        0x3280..=0x3289 | 0x32B1..=0x32BF | 0xA620..=0xA629 | 0xA6E6..=0xA6EF |
        0xA830..=0xA835 | 0xA8D0..=0xA8D9 | 0xA900..=0xA909 | 0xA9D0..=0xA9D9 |
        0xA9F0..=0xA9F9 | 0xAA50..=0xAA59 | 0xABF0..=0xABF9 | 0xFF10..=0xFF19 |
        0x10107..=0x10133 | 0x10140..=0x10178 | 0x1018A..=0x1018B | 0x102E1..=0x102FB |
        0x10320..=0x10323 | 0x10341 | 0x1034A | 0x103D1..=0x103D5 | 0x104A0..=0x104A9 |
        0x10858..=0x1085F | 0x10879..=0x1087F | 0x108A7..=0x108AF | 0x108FB..=0x108FF |
        0x10916..=0x1091B | 0x109BC..=0x109BD | 0x109C0..=0x109CF | 0x109D2..=0x109FF |
        0x10A40..=0x10A48 | 0x10A7D..=0x10A7E | 0x10A9D..=0x10A9F | 0x10AEB..=0x10AEF |
        0x10B58..=0x10B5F | 0x10B78..=0x10B7F | 0x10BA9..=0x10BAF | 0x10CFA..=0x10CFF |
        0x10D30..=0x10D39 | 0x10E60..=0x10E7E | 0x10F1D..=0x10F26 | 0x10F51..=0x10F54 |
        0x10FC5..=0x10FCB | 0x11052..=0x1106F | 0x110F0..=0x110F9 | 0x11136..=0x1113F |
        0x111D0..=0x111D9 | 0x111E1..=0x111F4 | 0x112F0..=0x112F9 | 0x11450..=0x11459 |
        0x114D0..=0x114D9 | 0x11650..=0x11659 | 0x116C0..=0x116C9 | 0x11730..=0x1173B |
        0x118E0..=0x118F2 | 0x11950..=0x11959 | 0x11C50..=0x11C6C | 0x11D50..=0x11D59 |
        0x11DA0..=0x11DA9 | 0x11FC0..=0x11FD4 | 0x12400..=0x1246E | 0x16A60..=0x16A69 |
        0x16AC0..=0x16AC9 | 0x16B50..=0x16B59 | 0x16B5B..=0x16B61 | 0x16E80..=0x16E96 |
        0x1D2E0..=0x1D2F3 | 0x1D360..=0x1D378 | 0x1D7CE..=0x1D7FF | 0x1E140..=0x1E149 |
        0x1E2F0..=0x1E2F9 | 0x1E8C7..=0x1E8CF | 0x1E950..=0x1E959 | 0x1EC71..=0x1ECAB |
        0x1ECAD..=0x1ECAF | 0x1ECB1..=0x1ECB4 | 0x1ED01..=0x1ED2D | 0x1ED2F..=0x1ED3D |
        0x1F100..=0x1F10C | 0x1FBF0..=0x1FBF9 => true,
        _ => false,
    }
}

/// The code points whose General_Category=Punctuation (Pc, Pd, Ps, Pe, Pi, Pf, Po), as ranges of scalar values.
pub open spec fn is_punctuation(c: char) -> bool {
    let u = c as u32;
    ||| 0x0021 <= u <= 0x0023
    ||| 0x0025 <= u <= 0x002A
    ||| 0x002C <= u <= 0x002F
    ||| 0x003A <= u <= 0x003B
    ||| 0x003F <= u <= 0x0040
    ||| 0x005B <= u <= 0x005D
    ||| u == 0x005F
    ||| u == 0x007B
    ||| u == 0x007D
    ||| u == 0x00A1
    ||| u == 0x00A7
    ||| u == 0x00AB
    ||| 0x00B6 <= u <= 0x00B7
    ||| u == 0x00BB
    ||| u == 0x00BF
    ||| u == 0x037E
    ||| u == 0x0387
    ||| 0x055A <= u <= 0x055F
    ||| 0x0589 <= u <= 0x058A
    ||| u == 0x05BE
    ||| u == 0x05C0
    ||| u == 0x05C3
    ||| u == 0x05C6
    ||| 0x05F3 <= u <= 0x05F4
    ||| 0x0609 <= u <= 0x060A
    ||| 0x060C <= u <= 0x060D
    ||| u == 0x061B
    ||| 0x061D <= u <= 0x061F
    ||| 0x066A <= u <= 0x066D
    ||| u == 0x06D4
    ||| 0x0700 <= u <= 0x070D
    ||| 0x07F7 <= u <= 0x07F9
    ||| 0x0830 <= u <= 0x083E
    ||| u == 0x085E
    ||| 0x0964 <= u <= 0x0965
    ||| u == 0x0970
    ||| u == 0x09FD
    ||| u == 0x0A76
    ||| u == 0x0AF0
    ||| u == 0x0C77
    ||| u == 0x0C84
    ||| u == 0x0DF4
    ||| u == 0x0E4F
    ||| 0x0E5A <= u <= 0x0E5B
    ||| 0x0F04 <= u <= 0x0F12
    ||| u == 0x0F14
    ||| 0x0F3A <= u <= 0x0F3D
    ||| u == 0x0F85
    ||| 0x0FD0 <= u <= 0x0FD4
    ||| 0x0FD9 <= u <= 0x0FDA
    ||| 0x104A <= u <= 0x104F
    ||| u == 0x10FB
    ||| 0x1360 <= u <= 0x1368
    ||| u == 0x1400
    ||| u == 0x166E
    ||| 0x169B <= u <= 0x169C
    ||| 0x16EB <= u <= 0x16ED
    ||| 0x1735 <= u <= 0x1736
    ||| 0x17D4 <= u <= 0x17D6
    ||| 0x17D8 <= u <= 0x17DA
    ||| 0x1800 <= u <= 0x180A
    ||| 0x1944 <= u <= 0x1945
    ||| 0x1A1E <= u <= 0x1A1F
    ||| 0x1AA0 <= u <= 0x1AA6
    ||| 0x1AA8 <= u <= 0x1AAD
    ||| 0x1B5A <= u <= 0x1B60
    ||| 0x1B7D <= u <= 0x1B7E
    ||| 0x1BFC <= u <= 0x1BFF
    ||| 0x1C3B <= u <= 0x1C3F
    ||| 0x1C7E <= u <= 0x1C7F
    ||| 0x1CC0 <= u <= 0x1CC7
    ||| u == 0x1CD3
    ||| 0x2010 <= u <= 0x2027
    ||| 0x2030 <= u <= 0x2043
    ||| 0x2045 <= u <= 0x2051
    ||| 0x2053 <= u <= 0x205E
    ||| 0x207D <= u <= 0x207E
    ||| 0x208D <= u <= 0x208E
    ||| 0x2308 <= u <= 0x230B
    ||| 0x2329 <= u <= 0x232A
    ||| 0x2768 <= u <= 0x2775
    ||| 0x27C5 <= u <= 0x27C6
    ||| 0x27E6 <= u <= 0x27EF
    ||| 0x2983 <= u <= 0x2998
    ||| 0x29D8 <= u <= 0x29DB
    ||| 0x29FC <= u <= 0x29FD
    ||| 0x2CF9 <= u <= 0x2CFC
    ||| 0x2CFE <= u <= 0x2CFF
    ||| u == 0x2D70
    ||| 0x2E00 <= u <= 0x2E2E
    ||| 0x2E30 <= u <= 0x2E4F
    ||| 0x2E52 <= u <= 0x2E5D
    ||| 0x3001 <= u <= 0x3003
    ||| 0x3008 <= u <= 0x3011
    ||| 0x3014 <= u <= 0x301F
    ||| u == 0x3030
    ||| u == 0x303D
    ||| u == 0x30A0
    ||| u == 0x30FB
    ||| 0xA4FE <= u <= 0xA4FF
    ||| 0xA60D <= u <= 0xA60F
    ||| u == 0xA673
    ||| u == 0xA67E
    ||| 0xA6F2 <= u <= 0xA6F7
    ||| 0xA874 <= u <= 0xA877
    ||| 0xA8CE <= u <= 0xA8CF
    ||| 0xA8F8 <= u <= 0xA8FA
    ||| u == 0xA8FC
    ||| 0xA92E <= u <= 0xA92F
    ||| u == 0xA95F
    ||| 0xA9C1 <= u <= 0xA9CD
    ||| 0xA9DE <= u <= 0xA9DF
    ||| 0xAA5C <= u <= 0xAA5F
    ||| 0xAADE <= u <= 0xAADF
    ||| 0xAAF0 <= u <= 0xAAF1
    ||| u == 0xABEB
    ||| 0xFD3E <= u <= 0xFD3F
    ||| 0xFE10 <= u <= 0xFE19
    ||| 0xFE30 <= u <= 0xFE52
    ||| 0xFE54 <= u <= 0xFE61
    ||| u == 0xFE63
    ||| u == 0xFE68
    ||| 0xFE6A <= u <= 0xFE6B
    ||| 0xFF01 <= u <= 0xFF03
    ||| 0xFF05 <= u <= 0xFF0A
    ||| 0xFF0C <= u <= 0xFF0F
    ||| 0xFF1A <= u <= 0xFF1B
    ||| 0xFF1F <= u <= 0xFF20
    ||| 0xFF3B <= u <= 0xFF3D
    ||| u == 0xFF3F
    ||| u == 0xFF5B
    ||| u == 0xFF5D
    ||| 0xFF5F <= u <= 0xFF65
    ||| 0x10100 <= u <= 0x10102
    ||| u == 0x1039F
    ||| u == 0x103D0
    ||| u == 0x1056F
    ||| u == 0x10857
    ||| u == 0x1091F
    ||| u == 0x1093F
    ||| 0x10A50 <= u <= 0x10A58
    ||| u == 0x10A7F
    ||| 0x10AF0 <= u <= 0x10AF6
    ||| 0x10B39 <= u <= 0x10B3F
    ||| 0x10B99 <= u <= 0x10B9C
    ||| u == 0x10EAD
    ||| 0x10F55 <= u <= 0x10F59
    ||| 0x10F86 <= u <= 0x10F89
    ||| 0x11047 <= u <= 0x1104D
    ||| 0x110BB <= u <= 0x110BC
    ||| 0x110BE <= u <= 0x110C1
    ||| 0x11140 <= u <= 0x11143
    ||| 0x11174 <= u <= 0x11175
    ||| 0x111C5 <= u <= 0x111C8
    ||| u == 0x111CD
    ||| u == 0x111DB
    ||| 0x111DD <= u <= 0x111DF
    ||| 0x11238 <= u <= 0x1123D
    ||| u == 0x112A9
    ||| 0x1144B <= u <= 0x1144F
    ||| 0x1145A <= u <= 0x1145B
    ||| u == 0x1145D
    ||| u == 0x114C6
    ||| 0x115C1 <= u <= 0x115D7
    ||| 0x11641 <= u <= 0x11643
    ||| 0x11660 <= u <= 0x1166C
    ||| u == 0x116B9
    ||| 0x1173C <= u <= 0x1173E
    ||| u == 0x1183B
    ||| 0x11944 <= u <= 0x11946
    ||| u == 0x119E2
    ||| 0x11A3F <= u <= 0x11A46
    ||| 0x11A9A <= u <= 0x11A9C
    ||| 0x11A9E <= u <= 0x11AA2
    ||| 0x11C41 <= u <= 0x11C45
    ||| 0x11C70 <= u <= 0x11C71
    ||| 0x11EF7 <= u <= 0x11EF8
    ||| u == 0x11FFF
    ||| 0x12470 <= u <= 0x12474
    ||| 0x12FF1 <= u <= 0x12FF2
    ||| 0x16A6E <= u <= 0x16A6F
    ||| u == 0x16AF5
    ||| 0x16B37 <= u <= 0x16B3B
    ||| u == 0x16B44
    ||| 0x16E97 <= u <= 0x16E9A
    ||| u == 0x16FE2
    ||| u == 0x1BC9F
    ||| 0x1DA87 <= u <= 0x1DA8B
    ||| 0x1E95E <= u <= 0x1E95F
}

/// Whether `c` has General_Category=Punctuation (Pc, Pd, Ps, Pe, Pi, Pf, Po).
pub fn in_punctuation(c: char) -> (r: bool)
    ensures
        r == is_punctuation(c),
{
    let u = c as u32;
    match u {
        0x0021..=0x0023 | 0x0025..=0x002A | 0x002C..=0x002F | 0x003A..=0x003B |
        0x003F..=0x0040 | 0x005B..=0x005D | 0x005F | 0x007B | 0x007D | 0x00A1 | 0x00A7 |
        0x00AB | 0x00B6..=0x00B7 | 0x00BB | 0x00BF | 0x037E | 0x0387 | 0x055A..=0x055F |
        0x0589..=0x058A | 0x05BE | 0x05C0 | 0x05C3 | 0x05C6 | 0x05F3..=0x05F4 |
        0x0609..=0x060A | 0x060C..=0x060D | 0x061B | 0x061D..=0x061F | 0x066A..=0x066D |
        0x06D4 | 0x0700..=0x070D | 0x07F7..=0x07F9 | 0x0830..=0x083E | 0x085E |
        0x0964..=0x0965 | 0x0970 | 0x09FD | 0x0A76 | 0x0AF0 | 0x0C77 | 0x0C84 | 0x0DF4 |
        0x0E4F | 0x0E5A..=0x0E5B | 0x0F04..=0x0F12 | 0x0F14 | 0x0F3A..=0x0F3D | 0x0F85 |
        0x0FD0..=0x0FD4 | 0x0FD9..=0x0FDA | 0x104A..=0x104F | 0x10FB | 0x1360..=0x1368 |
        0x1400 | 0x166E | 0x169B..=0x169C | 0x16EB..=0x16ED | 0x1735..=0x1736 |
        0x17D4..=0x17D6 | 0x17D8..=0x17DA | 0x1800..=0x180A | 0x1944..=0x1945 |
        0x1A1E..=0x1A1F | 0x1AA0..=0x1AA6 | 0x1AA8..=0x1AAD | 0x1B5A..=0x1B60 |
        0x1B7D..=0x1B7E | 0x1BFC..=0x1BFF | 0x1C3B..=0x1C3F | 0x1C7E..=0x1C7F |
        0x1CC0..=0x1CC7 | 0x1CD3 | 0x2010..=0x2027 | 0x2030..=0x2043 | 0x2045..=0x2051 |
        0x2053..=0x205E | 0x207D..=0x207E | 0x208D..=0x208E | 0x2308..=0x230B |
        0x2329..=0x232A | 0x2768..=0x2775 | 0x27C5..=0x27C6 | 0x27E6..=0x27EF |
        0x2983..=0x2998 | 0x29D8..=0x29DB | 0x29FC..=0x29FD | 0x2CF9..=0x2CFC |
        0x2CFE..=0x2CFF | 0x2D70 | 0x2E00..=0x2E2E | 0x2E30..=0x2E4F | 0x2E52..=0x2E5D |
        0x3001..=0x3003 | 0x3008..=0x3011 | 0x3014..=0x301F | 0x3030 | 0x303D | 0x30A0 |
        0x30FB | 0xA4FE..=0xA4FF | 0xA60D..=0xA60F | 0xA673 | 0xA67E | 0xA6F2..=0xA6F7 |
        0xA874..=0xA877 | 0xA8CE..=0xA8CF | 0xA8F8..=0xA8FA | 0xA8FC | 0xA92E..=0xA92F |
        0xA95F | 0xA9C1..=0xA9CD | 0xA9DE..=0xA9DF | 0xAA5C..=0xAA5F | 0xAADE..=0xAADF |
        0xAAF0..=0xAAF1 | 0xABEB | 0xFD3E..=0xFD3F | 0xFE10..=0xFE19 | 0xFE30..=0xFE52 |
        0xFE54..=0xFE61 | 0xFE63 | 0xFE68 | 0xFE6A..=0xFE6B | 0xFF01..=0xFF03 |
        0xFF05..=0xFF0A | 0xFF0C..=0xFF0F | 0xFF1A..=0xFF1B | 0xFF1F..=0xFF20 |
        0xFF3B..=0xFF3D | 0xFF3F | 0xFF5B | 0xFF5D | 0xFF5F..=0xFF65 | 0x10100..=0x10102 |
        0x1039F | 0x103D0 | 0x1056F | 0x10857 | 0x1091F | 0x1093F | 0x10A50..=0x10A58 |
        0x10A7F | 0x10AF0..=0x10AF6 | 0x10B39..=0x10B3F | 0x10B99..=0x10B9C | 0x10EAD |
        0x10F55..=0x10F59 | 0x10F86..=0x10F89 | 0x11047..=0x1104D | 0x110BB..=0x110BC |
        0x110BE..=0x110C1 | 0x11140..=0x11143 | 0x11174..=0x11175 | 0x111C5..=0x111C8 |
        0x111CD | 0x111DB | 0x111DD..=0x111DF | 0x11238..=0x1123D | 0x112A9 |
        0x1144B..=0x1144F | 0x1145A..=0x1145B | 0x1145D | 0x114C6 | 0x115C1..=0x115D7 |
        0x11641..=0x11643 | 0x11660..=0x1166C | 0x116B9 | 0x1173C..=0x1173E | 0x1183B |
        0x11944..=0x11946 | 0x119E2 | 0x11A3F..=0x11A46 | 0x11A9A..=0x11A9C |
        0x11A9E..=0x11AA2 | 0x11C41..=0x11C45 | 0x11C70..=0x11C71 | 0x11EF7..=0x11EF8 |
        0x11FFF | 0x12470..=0x12474 | 0x12FF1..=0x12FF2 | 0x16A6E..=0x16A6F | 0x16AF5 |
        0x16B37..=0x16B3B | 0x16B44 | 0x16E97..=0x16E9A | 0x16FE2 | 0x1BC9F |
        0x1DA87..=0x1DA8B | 0x1E95E..=0x1E95F => true,
        _ => false,
    }
}

} // verus!
