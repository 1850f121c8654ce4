//! The property tables of Unicode 14.0, held as constant arrays in ascending order. Code
//! points with no entry take each table's default: category Cn, combining class 0, no case, not
//! alphabetic, no decomposition. Each table is split into arrays of at most a thousand entries;
//! its contents are the arrays joined in order, and the function of the same name builds them
//! into one vector.
use vstd::prelude::*;

use crate::category::GeneralCategory as Gc;
use crate::fill::push_all;

verus! {


const CATEGORY_BOUNDS_0: [(u32, u32); 1000] = [
    (0x0000, 0x001F), (0x0020, 0x0020), (0x0021, 0x0023), (0x0024, 0x0024), (0x0025, 0x0027), (0x0028, 0x0028),
    (0x0029, 0x0029), (0x002A, 0x002A), (0x002B, 0x002B), (0x002C, 0x002C), (0x002D, 0x002D), (0x002E, 0x002F),
    (0x0030, 0x0039), (0x003A, 0x003B), (0x003C, 0x003E), (0x003F, 0x0040), (0x0041, 0x005A), (0x005B, 0x005B),
    (0x005C, 0x005C), (0x005D, 0x005D), (0x005E, 0x005E), (0x005F, 0x005F), (0x0060, 0x0060), (0x0061, 0x007A),
    (0x007B, 0x007B), (0x007C, 0x007C), (0x007D, 0x007D), (0x007E, 0x007E), (0x007F, 0x009F), (0x00A0, 0x00A0),
    (0x00A1, 0x00A1), (0x00A2, 0x00A5), (0x00A6, 0x00A6), (0x00A7, 0x00A7), (0x00A8, 0x00A8), (0x00A9, 0x00A9),
    (0x00AA, 0x00AA), (0x00AB, 0x00AB), (0x00AC, 0x00AC), (0x00AD, 0x00AD), (0x00AE, 0x00AE), (0x00AF, 0x00AF),
    (0x00B0, 0x00B0), (0x00B1, 0x00B1), (0x00B2, 0x00B3), (0x00B4, 0x00B4), (0x00B5, 0x00B5), (0x00B6, 0x00B7),
    (0x00B8, 0x00B8), (0x00B9, 0x00B9), (0x00BA, 0x00BA), (0x00BB, 0x00BB), (0x00BC, 0x00BE), (0x00BF, 0x00BF),
    (0x00C0, 0x00D6), (0x00D7, 0x00D7), (0x00D8, 0x00DE), (0x00DF, 0x00F6), (0x00F7, 0x00F7), (0x00F8, 0x00FF),
    (0x0100, 0x0100), (0x0101, 0x0101), (0x0102, 0x0102), (0x0103, 0x0103), (0x0104, 0x0104), (0x0105, 0x0105),
    (0x0106, 0x0106), (0x0107, 0x0107), (0x0108, 0x0108), (0x0109, 0x0109), (0x010A, 0x010A), (0x010B, 0x010B),
    (0x010C, 0x010C), (0x010D, 0x010D), (0x010E, 0x010E), (0x010F, 0x010F), (0x0110, 0x0110), (0x0111, 0x0111),
    (0x0112, 0x0112), (0x0113, 0x0113), (0x0114, 0x0114), (0x0115, 0x0115), (0x0116, 0x0116), (0x0117, 0x0117),
    (0x0118, 0x0118), (0x0119, 0x0119), (0x011A, 0x011A), (0x011B, 0x011B), (0x011C, 0x011C), (0x011D, 0x011D),
    (0x011E, 0x011E), (0x011F, 0x011F), (0x0120, 0x0120), (0x0121, 0x0121), (0x0122, 0x0122), (0x0123, 0x0123),
    (0x0124, 0x0124), (0x0125, 0x0125), (0x0126, 0x0126), (0x0127, 0x0127), (0x0128, 0x0128), (0x0129, 0x0129),
    (0x012A, 0x012A), (0x012B, 0x012B), (0x012C, 0x012C), (0x012D, 0x012D), (0x012E, 0x012E), (0x012F, 0x012F),
    (0x0130, 0x0130), (0x0131, 0x0131), (0x0132, 0x0132), (0x0133, 0x0133), (0x0134, 0x0134), (0x0135, 0x0135),
    (0x0136, 0x0136), (0x0137, 0x0138), (0x0139, 0x0139), (0x013A, 0x013A), (0x013B, 0x013B), (0x013C, 0x013C),
    (0x013D, 0x013D), (0x013E, 0x013E), (0x013F, 0x013F), (0x0140, 0x0140), (0x0141, 0x0141), (0x0142, 0x0142),
    (0x0143, 0x0143), (0x0144, 0x0144), (0x0145, 0x0145), (0x0146, 0x0146), (0x0147, 0x0147), (0x0148, 0x0149),
    (0x014A, 0x014A), (0x014B, 0x014B), (0x014C, 0x014C), (0x014D, 0x014D), (0x014E, 0x014E), (0x014F, 0x014F),
    (0x0150, 0x0150), (0x0151, 0x0151), (0x0152, 0x0152), (0x0153, 0x0153), (0x0154, 0x0154), (0x0155, 0x0155),
    (0x0156, 0x0156), (0x0157, 0x0157), (0x0158, 0x0158), (0x0159, 0x0159), (0x015A, 0x015A), (0x015B, 0x015B),
    (0x015C, 0x015C), (0x015D, 0x015D), (0x015E, 0x015E), (0x015F, 0x015F), (0x0160, 0x0160), (0x0161, 0x0161),
    (0x0162, 0x0162), (0x0163, 0x0163), (0x0164, 0x0164), (0x0165, 0x0165), (0x0166, 0x0166), (0x0167, 0x0167),
    (0x0168, 0x0168), (0x0169, 0x0169), (0x016A, 0x016A), (0x016B, 0x016B), (0x016C, 0x016C), (0x016D, 0x016D),
    (0x016E, 0x016E), (0x016F, 0x016F), (0x0170, 0x0170), (0x0171, 0x0171), (0x0172, 0x0172), (0x0173, 0x0173),
    (0x0174, 0x0174), (0x0175, 0x0175), (0x0176, 0x0176), (0x0177, 0x0177), (0x0178, 0x0179), (0x017A, 0x017A),
    (0x017B, 0x017B), (0x017C, 0x017C), (0x017D, 0x017D), (0x017E, 0x0180), (0x0181, 0x0182), (0x0183, 0x0183),
    (0x0184, 0x0184), (0x0185, 0x0185), (0x0186, 0x0187), (0x0188, 0x0188), (0x0189, 0x018B), (0x018C, 0x018D),
    (0x018E, 0x0191), (0x0192, 0x0192), (0x0193, 0x0194), (0x0195, 0x0195), (0x0196, 0x0198), (0x0199, 0x019B),
    (0x019C, 0x019D), (0x019E, 0x019E), (0x019F, 0x01A0), (0x01A1, 0x01A1), (0x01A2, 0x01A2), (0x01A3, 0x01A3),
    (0x01A4, 0x01A4), (0x01A5, 0x01A5), (0x01A6, 0x01A7), (0x01A8, 0x01A8), (0x01A9, 0x01A9), (0x01AA, 0x01AB),
    (0x01AC, 0x01AC), (0x01AD, 0x01AD), (0x01AE, 0x01AF), (0x01B0, 0x01B0), (0x01B1, 0x01B3), (0x01B4, 0x01B4),
    (0x01B5, 0x01B5), (0x01B6, 0x01B6), (0x01B7, 0x01B8), (0x01B9, 0x01BA), (0x01BB, 0x01BB), (0x01BC, 0x01BC),
    (0x01BD, 0x01BF), (0x01C0, 0x01C3), (0x01C4, 0x01C4), (0x01C5, 0x01C5), (0x01C6, 0x01C6), (0x01C7, 0x01C7),
    (0x01C8, 0x01C8), (0x01C9, 0x01C9), (0x01CA, 0x01CA), (0x01CB, 0x01CB), (0x01CC, 0x01CC), (0x01CD, 0x01CD),
    (0x01CE, 0x01CE), (0x01CF, 0x01CF), (0x01D0, 0x01D0), (0x01D1, 0x01D1), (0x01D2, 0x01D2), (0x01D3, 0x01D3),
    (0x01D4, 0x01D4), (0x01D5, 0x01D5), (0x01D6, 0x01D6), (0x01D7, 0x01D7), (0x01D8, 0x01D8), (0x01D9, 0x01D9),
    (0x01DA, 0x01DA), (0x01DB, 0x01DB), (0x01DC, 0x01DD), (0x01DE, 0x01DE), (0x01DF, 0x01DF), (0x01E0, 0x01E0),
    (0x01E1, 0x01E1), (0x01E2, 0x01E2), (0x01E3, 0x01E3), (0x01E4, 0x01E4), (0x01E5, 0x01E5), (0x01E6, 0x01E6),
    (0x01E7, 0x01E7), (0x01E8, 0x01E8), (0x01E9, 0x01E9), (0x01EA, 0x01EA), (0x01EB, 0x01EB), (0x01EC, 0x01EC),
    (0x01ED, 0x01ED), (0x01EE, 0x01EE), (0x01EF, 0x01F0), (0x01F1, 0x01F1), (0x01F2, 0x01F2), (0x01F3, 0x01F3),
    (0x01F4, 0x01F4), (0x01F5, 0x01F5), (0x01F6, 0x01F8), (0x01F9, 0x01F9), (0x01FA, 0x01FA), (0x01FB, 0x01FB),
    (0x01FC, 0x01FC), (0x01FD, 0x01FD), (0x01FE, 0x01FE), (0x01FF, 0x01FF), (0x0200, 0x0200), (0x0201, 0x0201),
    (0x0202, 0x0202), (0x0203, 0x0203), (0x0204, 0x0204), (0x0205, 0x0205), (0x0206, 0x0206), (0x0207, 0x0207),
    (0x0208, 0x0208), (0x0209, 0x0209), (0x020A, 0x020A), (0x020B, 0x020B), (0x020C, 0x020C), (0x020D, 0x020D),
    (0x020E, 0x020E), (0x020F, 0x020F), (0x0210, 0x0210), (0x0211, 0x0211), (0x0212, 0x0212), (0x0213, 0x0213),
    (0x0214, 0x0214), (0x0215, 0x0215), (0x0216, 0x0216), (0x0217, 0x0217), (0x0218, 0x0218), (0x0219, 0x0219),
    (0x021A, 0x021A), (0x021B, 0x021B), (0x021C, 0x021C), (0x021D, 0x021D), (0x021E, 0x021E), (0x021F, 0x021F),
    (0x0220, 0x0220), (0x0221, 0x0221), (0x0222, 0x0222), (0x0223, 0x0223), (0x0224, 0x0224), (0x0225, 0x0225),
    (0x0226, 0x0226), (0x0227, 0x0227), (0x0228, 0x0228), (0x0229, 0x0229), (0x022A, 0x022A), (0x022B, 0x022B),
    (0x022C, 0x022C), (0x022D, 0x022D), (0x022E, 0x022E), (0x022F, 0x022F), (0x0230, 0x0230), (0x0231, 0x0231),
    (0x0232, 0x0232), (0x0233, 0x0239), (0x023A, 0x023B), (0x023C, 0x023C), (0x023D, 0x023E), (0x023F, 0x0240),
    (0x0241, 0x0241), (0x0242, 0x0242), (0x0243, 0x0246), (0x0247, 0x0247), (0x0248, 0x0248), (0x0249, 0x0249),
    (0x024A, 0x024A), (0x024B, 0x024B), (0x024C, 0x024C), (0x024D, 0x024D), (0x024E, 0x024E), (0x024F, 0x0293),
    (0x0294, 0x0294), (0x0295, 0x02AF), (0x02B0, 0x02C1), (0x02C2, 0x02C5), (0x02C6, 0x02D1), (0x02D2, 0x02DF),
    (0x02E0, 0x02E4), (0x02E5, 0x02EB), (0x02EC, 0x02EC), (0x02ED, 0x02ED), (0x02EE, 0x02EE), (0x02EF, 0x02FF),
    (0x0300, 0x036F), (0x0370, 0x0370), (0x0371, 0x0371), (0x0372, 0x0372), (0x0373, 0x0373), (0x0374, 0x0374),
    (0x0375, 0x0375), (0x0376, 0x0376), (0x0377, 0x0377), (0x037A, 0x037A), (0x037B, 0x037D), (0x037E, 0x037E),
    (0x037F, 0x037F), (0x0384, 0x0385), (0x0386, 0x0386), (0x0387, 0x0387), (0x0388, 0x038A), (0x038C, 0x038C),
    (0x038E, 0x038F), (0x0390, 0x0390), (0x0391, 0x03A1), (0x03A3, 0x03AB), (0x03AC, 0x03CE), (0x03CF, 0x03CF),
    (0x03D0, 0x03D1), (0x03D2, 0x03D4), (0x03D5, 0x03D7), (0x03D8, 0x03D8), (0x03D9, 0x03D9), (0x03DA, 0x03DA),
    (0x03DB, 0x03DB), (0x03DC, 0x03DC), (0x03DD, 0x03DD), (0x03DE, 0x03DE), (0x03DF, 0x03DF), (0x03E0, 0x03E0),
    (0x03E1, 0x03E1), (0x03E2, 0x03E2), (0x03E3, 0x03E3), (0x03E4, 0x03E4), (0x03E5, 0x03E5), (0x03E6, 0x03E6),
    (0x03E7, 0x03E7), (0x03E8, 0x03E8), (0x03E9, 0x03E9), (0x03EA, 0x03EA), (0x03EB, 0x03EB), (0x03EC, 0x03EC),
    (0x03ED, 0x03ED), (0x03EE, 0x03EE), (0x03EF, 0x03F3), (0x03F4, 0x03F4), (0x03F5, 0x03F5), (0x03F6, 0x03F6),
    (0x03F7, 0x03F7), (0x03F8, 0x03F8), (0x03F9, 0x03FA), (0x03FB, 0x03FC), (0x03FD, 0x042F), (0x0430, 0x045F),
    (0x0460, 0x0460), (0x0461, 0x0461), (0x0462, 0x0462), (0x0463, 0x0463), (0x0464, 0x0464), (0x0465, 0x0465),
    (0x0466, 0x0466), (0x0467, 0x0467), (0x0468, 0x0468), (0x0469, 0x0469), (0x046A, 0x046A), (0x046B, 0x046B),
    (0x046C, 0x046C), (0x046D, 0x046D), (0x046E, 0x046E), (0x046F, 0x046F), (0x0470, 0x0470), (0x0471, 0x0471),
    (0x0472, 0x0472), (0x0473, 0x0473), (0x0474, 0x0474), (0x0475, 0x0475), (0x0476, 0x0476), (0x0477, 0x0477),
    (0x0478, 0x0478), (0x0479, 0x0479), (0x047A, 0x047A), (0x047B, 0x047B), (0x047C, 0x047C), (0x047D, 0x047D),
    (0x047E, 0x047E), (0x047F, 0x047F), (0x0480, 0x0480), (0x0481, 0x0481), (0x0482, 0x0482), (0x0483, 0x0487),
    (0x0488, 0x0489), (0x048A, 0x048A), (0x048B, 0x048B), (0x048C, 0x048C), (0x048D, 0x048D), (0x048E, 0x048E),
    (0x048F, 0x048F), (0x0490, 0x0490), (0x0491, 0x0491), (0x0492, 0x0492), (0x0493, 0x0493), (0x0494, 0x0494),
    (0x0495, 0x0495), (0x0496, 0x0496), (0x0497, 0x0497), (0x0498, 0x0498), (0x0499, 0x0499), (0x049A, 0x049A),
    (0x049B, 0x049B), (0x049C, 0x049C), (0x049D, 0x049D), (0x049E, 0x049E), (0x049F, 0x049F), (0x04A0, 0x04A0),
    (0x04A1, 0x04A1), (0x04A2, 0x04A2), (0x04A3, 0x04A3), (0x04A4, 0x04A4), (0x04A5, 0x04A5), (0x04A6, 0x04A6),
    (0x04A7, 0x04A7), (0x04A8, 0x04A8), (0x04A9, 0x04A9), (0x04AA, 0x04AA), (0x04AB, 0x04AB), (0x04AC, 0x04AC),
    (0x04AD, 0x04AD), (0x04AE, 0x04AE), (0x04AF, 0x04AF), (0x04B0, 0x04B0), (0x04B1, 0x04B1), (0x04B2, 0x04B2),
    (0x04B3, 0x04B3), (0x04B4, 0x04B4), (0x04B5, 0x04B5), (0x04B6, 0x04B6), (0x04B7, 0x04B7), (0x04B8, 0x04B8),
    (0x04B9, 0x04B9), (0x04BA, 0x04BA), (0x04BB, 0x04BB), (0x04BC, 0x04BC), (0x04BD, 0x04BD), (0x04BE, 0x04BE),
    (0x04BF, 0x04BF), (0x04C0, 0x04C1), (0x04C2, 0x04C2), (0x04C3, 0x04C3), (0x04C4, 0x04C4), (0x04C5, 0x04C5),
    (0x04C6, 0x04C6), (0x04C7, 0x04C7), (0x04C8, 0x04C8), (0x04C9, 0x04C9), (0x04CA, 0x04CA), (0x04CB, 0x04CB),
    (0x04CC, 0x04CC), (0x04CD, 0x04CD), (0x04CE, 0x04CF), (0x04D0, 0x04D0), (0x04D1, 0x04D1), (0x04D2, 0x04D2),
    (0x04D3, 0x04D3), (0x04D4, 0x04D4), (0x04D5, 0x04D5), (0x04D6, 0x04D6), (0x04D7, 0x04D7), (0x04D8, 0x04D8),
    (0x04D9, 0x04D9), (0x04DA, 0x04DA), (0x04DB, 0x04DB), (0x04DC, 0x04DC), (0x04DD, 0x04DD), (0x04DE, 0x04DE),
    (0x04DF, 0x04DF), (0x04E0, 0x04E0), (0x04E1, 0x04E1), (0x04E2, 0x04E2), (0x04E3, 0x04E3), (0x04E4, 0x04E4),
    (0x04E5, 0x04E5), (0x04E6, 0x04E6), (0x04E7, 0x04E7), (0x04E8, 0x04E8), (0x04E9, 0x04E9), (0x04EA, 0x04EA),
    (0x04EB, 0x04EB), (0x04EC, 0x04EC), (0x04ED, 0x04ED), (0x04EE, 0x04EE), (0x04EF, 0x04EF), (0x04F0, 0x04F0),
    (0x04F1, 0x04F1), (0x04F2, 0x04F2), (0x04F3, 0x04F3), (0x04F4, 0x04F4), (0x04F5, 0x04F5), (0x04F6, 0x04F6),
    (0x04F7, 0x04F7), (0x04F8, 0x04F8), (0x04F9, 0x04F9), (0x04FA, 0x04FA), (0x04FB, 0x04FB), (0x04FC, 0x04FC),
    (0x04FD, 0x04FD), (0x04FE, 0x04FE), (0x04FF, 0x04FF), (0x0500, 0x0500), (0x0501, 0x0501), (0x0502, 0x0502),
    (0x0503, 0x0503), (0x0504, 0x0504), (0x0505, 0x0505), (0x0506, 0x0506), (0x0507, 0x0507), (0x0508, 0x0508),
    (0x0509, 0x0509), (0x050A, 0x050A), (0x050B, 0x050B), (0x050C, 0x050C), (0x050D, 0x050D), (0x050E, 0x050E),
    (0x050F, 0x050F), (0x0510, 0x0510), (0x0511, 0x0511), (0x0512, 0x0512), (0x0513, 0x0513), (0x0514, 0x0514),
    (0x0515, 0x0515), (0x0516, 0x0516), (0x0517, 0x0517), (0x0518, 0x0518), (0x0519, 0x0519), (0x051A, 0x051A),
    (0x051B, 0x051B), (0x051C, 0x051C), (0x051D, 0x051D), (0x051E, 0x051E), (0x051F, 0x051F), (0x0520, 0x0520),
    (0x0521, 0x0521), (0x0522, 0x0522), (0x0523, 0x0523), (0x0524, 0x0524), (0x0525, 0x0525), (0x0526, 0x0526),
    (0x0527, 0x0527), (0x0528, 0x0528), (0x0529, 0x0529), (0x052A, 0x052A), (0x052B, 0x052B), (0x052C, 0x052C),
    (0x052D, 0x052D), (0x052E, 0x052E), (0x052F, 0x052F), (0x0531, 0x0556), (0x0559, 0x0559), (0x055A, 0x055F),
    (0x0560, 0x0588), (0x0589, 0x0589), (0x058A, 0x058A), (0x058D, 0x058E), (0x058F, 0x058F), (0x0591, 0x05BD),
    (0x05BE, 0x05BE), (0x05BF, 0x05BF), (0x05C0, 0x05C0), (0x05C1, 0x05C2), (0x05C3, 0x05C3), (0x05C4, 0x05C5),
    (0x05C6, 0x05C6), (0x05C7, 0x05C7), (0x05D0, 0x05EA), (0x05EF, 0x05F2), (0x05F3, 0x05F4), (0x0600, 0x0605),
    (0x0606, 0x0608), (0x0609, 0x060A), (0x060B, 0x060B), (0x060C, 0x060D), (0x060E, 0x060F), (0x0610, 0x061A),
    (0x061B, 0x061B), (0x061C, 0x061C), (0x061D, 0x061F), (0x0620, 0x063F), (0x0640, 0x0640), (0x0641, 0x064A),
    (0x064B, 0x065F), (0x0660, 0x0669), (0x066A, 0x066D), (0x066E, 0x066F), (0x0670, 0x0670), (0x0671, 0x06D3),
    (0x06D4, 0x06D4), (0x06D5, 0x06D5), (0x06D6, 0x06DC), (0x06DD, 0x06DD), (0x06DE, 0x06DE), (0x06DF, 0x06E4),
    (0x06E5, 0x06E6), (0x06E7, 0x06E8), (0x06E9, 0x06E9), (0x06EA, 0x06ED), (0x06EE, 0x06EF), (0x06F0, 0x06F9),
    (0x06FA, 0x06FC), (0x06FD, 0x06FE), (0x06FF, 0x06FF), (0x0700, 0x070D), (0x070F, 0x070F), (0x0710, 0x0710),
    (0x0711, 0x0711), (0x0712, 0x072F), (0x0730, 0x074A), (0x074D, 0x07A5), (0x07A6, 0x07B0), (0x07B1, 0x07B1),
    (0x07C0, 0x07C9), (0x07CA, 0x07EA), (0x07EB, 0x07F3), (0x07F4, 0x07F5), (0x07F6, 0x07F6), (0x07F7, 0x07F9),
    (0x07FA, 0x07FA), (0x07FD, 0x07FD), (0x07FE, 0x07FF), (0x0800, 0x0815), (0x0816, 0x0819), (0x081A, 0x081A),
    (0x081B, 0x0823), (0x0824, 0x0824), (0x0825, 0x0827), (0x0828, 0x0828), (0x0829, 0x082D), (0x0830, 0x083E),
    (0x0840, 0x0858), (0x0859, 0x085B), (0x085E, 0x085E), (0x0860, 0x086A), (0x0870, 0x0887), (0x0888, 0x0888),
    (0x0889, 0x088E), (0x0890, 0x0891), (0x0898, 0x089F), (0x08A0, 0x08C8), (0x08C9, 0x08C9), (0x08CA, 0x08E1),
    (0x08E2, 0x08E2), (0x08E3, 0x0902), (0x0903, 0x0903), (0x0904, 0x0939), (0x093A, 0x093A), (0x093B, 0x093B),
    (0x093C, 0x093C), (0x093D, 0x093D), (0x093E, 0x0940), (0x0941, 0x0948), (0x0949, 0x094C), (0x094D, 0x094D),
    (0x094E, 0x094F), (0x0950, 0x0950), (0x0951, 0x0957), (0x0958, 0x0961), (0x0962, 0x0963), (0x0964, 0x0965),
    (0x0966, 0x096F), (0x0970, 0x0970), (0x0971, 0x0971), (0x0972, 0x0980), (0x0981, 0x0981), (0x0982, 0x0983),
    (0x0985, 0x098C), (0x098F, 0x0990), (0x0993, 0x09A8), (0x09AA, 0x09B0), (0x09B2, 0x09B2), (0x09B6, 0x09B9),
    (0x09BC, 0x09BC), (0x09BD, 0x09BD), (0x09BE, 0x09C0), (0x09C1, 0x09C4), (0x09C7, 0x09C8), (0x09CB, 0x09CC),
    (0x09CD, 0x09CD), (0x09CE, 0x09CE), (0x09D7, 0x09D7), (0x09DC, 0x09DD), (0x09DF, 0x09E1), (0x09E2, 0x09E3),
    (0x09E6, 0x09EF), (0x09F0, 0x09F1), (0x09F2, 0x09F3), (0x09F4, 0x09F9), (0x09FA, 0x09FA), (0x09FB, 0x09FB),
    (0x09FC, 0x09FC), (0x09FD, 0x09FD), (0x09FE, 0x09FE), (0x0A01, 0x0A02), (0x0A03, 0x0A03), (0x0A05, 0x0A0A),
    (0x0A0F, 0x0A10), (0x0A13, 0x0A28), (0x0A2A, 0x0A30), (0x0A32, 0x0A33), (0x0A35, 0x0A36), (0x0A38, 0x0A39),
    (0x0A3C, 0x0A3C), (0x0A3E, 0x0A40), (0x0A41, 0x0A42), (0x0A47, 0x0A48), (0x0A4B, 0x0A4D), (0x0A51, 0x0A51),
    (0x0A59, 0x0A5C), (0x0A5E, 0x0A5E), (0x0A66, 0x0A6F), (0x0A70, 0x0A71), (0x0A72, 0x0A74), (0x0A75, 0x0A75),
    (0x0A76, 0x0A76), (0x0A81, 0x0A82), (0x0A83, 0x0A83), (0x0A85, 0x0A8D), (0x0A8F, 0x0A91), (0x0A93, 0x0AA8),
    (0x0AAA, 0x0AB0), (0x0AB2, 0x0AB3), (0x0AB5, 0x0AB9), (0x0ABC, 0x0ABC), (0x0ABD, 0x0ABD), (0x0ABE, 0x0AC0),
    (0x0AC1, 0x0AC5), (0x0AC7, 0x0AC8), (0x0AC9, 0x0AC9), (0x0ACB, 0x0ACC), (0x0ACD, 0x0ACD), (0x0AD0, 0x0AD0),
    (0x0AE0, 0x0AE1), (0x0AE2, 0x0AE3), (0x0AE6, 0x0AEF), (0x0AF0, 0x0AF0), (0x0AF1, 0x0AF1), (0x0AF9, 0x0AF9),
    (0x0AFA, 0x0AFF), (0x0B01, 0x0B01), (0x0B02, 0x0B03), (0x0B05, 0x0B0C), (0x0B0F, 0x0B10), (0x0B13, 0x0B28),
    (0x0B2A, 0x0B30), (0x0B32, 0x0B33), (0x0B35, 0x0B39), (0x0B3C, 0x0B3C), (0x0B3D, 0x0B3D), (0x0B3E, 0x0B3E),
    (0x0B3F, 0x0B3F), (0x0B40, 0x0B40), (0x0B41, 0x0B44), (0x0B47, 0x0B48), (0x0B4B, 0x0B4C), (0x0B4D, 0x0B4D),
    (0x0B55, 0x0B56), (0x0B57, 0x0B57), (0x0B5C, 0x0B5D), (0x0B5F, 0x0B61), (0x0B62, 0x0B63), (0x0B66, 0x0B6F),
    (0x0B70, 0x0B70), (0x0B71, 0x0B71), (0x0B72, 0x0B77), (0x0B82, 0x0B82), (0x0B83, 0x0B83), (0x0B85, 0x0B8A),
    (0x0B8E, 0x0B90), (0x0B92, 0x0B95), (0x0B99, 0x0B9A), (0x0B9C, 0x0B9C), (0x0B9E, 0x0B9F), (0x0BA3, 0x0BA4),
    (0x0BA8, 0x0BAA), (0x0BAE, 0x0BB9), (0x0BBE, 0x0BBF), (0x0BC0, 0x0BC0), (0x0BC1, 0x0BC2), (0x0BC6, 0x0BC8),
    (0x0BCA, 0x0BCC), (0x0BCD, 0x0BCD), (0x0BD0, 0x0BD0), (0x0BD7, 0x0BD7), (0x0BE6, 0x0BEF), (0x0BF0, 0x0BF2),
    (0x0BF3, 0x0BF8), (0x0BF9, 0x0BF9), (0x0BFA, 0x0BFA), (0x0C00, 0x0C00), (0x0C01, 0x0C03), (0x0C04, 0x0C04),
    (0x0C05, 0x0C0C), (0x0C0E, 0x0C10), (0x0C12, 0x0C28), (0x0C2A, 0x0C39), (0x0C3C, 0x0C3C), (0x0C3D, 0x0C3D),
    (0x0C3E, 0x0C40), (0x0C41, 0x0C44), (0x0C46, 0x0C48), (0x0C4A, 0x0C4D), (0x0C55, 0x0C56), (0x0C58, 0x0C5A),
    (0x0C5D, 0x0C5D), (0x0C60, 0x0C61), (0x0C62, 0x0C63), (0x0C66, 0x0C6F), (0x0C77, 0x0C77), (0x0C78, 0x0C7E),
    (0x0C7F, 0x0C7F), (0x0C80, 0x0C80), (0x0C81, 0x0C81), (0x0C82, 0x0C83), (0x0C84, 0x0C84), (0x0C85, 0x0C8C),
    (0x0C8E, 0x0C90), (0x0C92, 0x0CA8), (0x0CAA, 0x0CB3), (0x0CB5, 0x0CB9), (0x0CBC, 0x0CBC), (0x0CBD, 0x0CBD),
    (0x0CBE, 0x0CBE), (0x0CBF, 0x0CBF), (0x0CC0, 0x0CC4), (0x0CC6, 0x0CC6), (0x0CC7, 0x0CC8), (0x0CCA, 0x0CCB),
    (0x0CCC, 0x0CCD), (0x0CD5, 0x0CD6), (0x0CDD, 0x0CDE), (0x0CE0, 0x0CE1), (0x0CE2, 0x0CE3), (0x0CE6, 0x0CEF),
    (0x0CF1, 0x0CF2), (0x0D00, 0x0D01), (0x0D02, 0x0D03), (0x0D04, 0x0D0C), (0x0D0E, 0x0D10), (0x0D12, 0x0D3A),
    (0x0D3B, 0x0D3C), (0x0D3D, 0x0D3D), (0x0D3E, 0x0D40), (0x0D41, 0x0D44), (0x0D46, 0x0D48), (0x0D4A, 0x0D4C),
    (0x0D4D, 0x0D4D), (0x0D4E, 0x0D4E), (0x0D4F, 0x0D4F), (0x0D54, 0x0D56), (0x0D57, 0x0D57), (0x0D58, 0x0D5E),
    (0x0D5F, 0x0D61), (0x0D62, 0x0D63), (0x0D66, 0x0D6F), (0x0D70, 0x0D78), (0x0D79, 0x0D79), (0x0D7A, 0x0D7F),
    (0x0D81, 0x0D81), (0x0D82, 0x0D83), (0x0D85, 0x0D96), (0x0D9A, 0x0DB1), (0x0DB3, 0x0DBB), (0x0DBD, 0x0DBD),
    (0x0DC0, 0x0DC6), (0x0DCA, 0x0DCA), (0x0DCF, 0x0DD1), (0x0DD2, 0x0DD4), (0x0DD6, 0x0DD6), (0x0DD8, 0x0DDF),
    (0x0DE6, 0x0DEF), (0x0DF2, 0x0DF3), (0x0DF4, 0x0DF4), (0x0E01, 0x0E30), (0x0E31, 0x0E31), (0x0E32, 0x0E33),
    (0x0E34, 0x0E3A), (0x0E3F, 0x0E3F), (0x0E40, 0x0E45), (0x0E46, 0x0E46), (0x0E47, 0x0E4E), (0x0E4F, 0x0E4F),
    (0x0E50, 0x0E59), (0x0E5A, 0x0E5B), (0x0E81, 0x0E82), (0x0E84, 0x0E84), (0x0E86, 0x0E8A), (0x0E8C, 0x0EA3),
    (0x0EA5, 0x0EA5), (0x0EA7, 0x0EB0), (0x0EB1, 0x0EB1), (0x0EB2, 0x0EB3), (0x0EB4, 0x0EBC), (0x0EBD, 0x0EBD),
    (0x0EC0, 0x0EC4), (0x0EC6, 0x0EC6), (0x0EC8, 0x0ECD), (0x0ED0, 0x0ED9), (0x0EDC, 0x0EDF), (0x0F00, 0x0F00),
    (0x0F01, 0x0F03), (0x0F04, 0x0F12), (0x0F13, 0x0F13), (0x0F14, 0x0F14), (0x0F15, 0x0F17), (0x0F18, 0x0F19),
    (0x0F1A, 0x0F1F), (0x0F20, 0x0F29), (0x0F2A, 0x0F33), (0x0F34, 0x0F34), (0x0F35, 0x0F35), (0x0F36, 0x0F36),
    (0x0F37, 0x0F37), (0x0F38, 0x0F38), (0x0F39, 0x0F39), (0x0F3A, 0x0F3A), (0x0F3B, 0x0F3B), (0x0F3C, 0x0F3C),
    (0x0F3D, 0x0F3D), (0x0F3E, 0x0F3F), (0x0F40, 0x0F47), (0x0F49, 0x0F6C), (0x0F71, 0x0F7E), (0x0F7F, 0x0F7F),
    (0x0F80, 0x0F84), (0x0F85, 0x0F85), (0x0F86, 0x0F87), (0x0F88, 0x0F8C),
];

const CATEGORY_BOUNDS_1: [(u32, u32); 1000] = [
    (0x0F8D, 0x0F97), (0x0F99, 0x0FBC), (0x0FBE, 0x0FC5), (0x0FC6, 0x0FC6), (0x0FC7, 0x0FCC), (0x0FCE, 0x0FCF),
    (0x0FD0, 0x0FD4), (0x0FD5, 0x0FD8), (0x0FD9, 0x0FDA), (0x1000, 0x102A), (0x102B, 0x102C), (0x102D, 0x1030),
    (0x1031, 0x1031), (0x1032, 0x1037), (0x1038, 0x1038), (0x1039, 0x103A), (0x103B, 0x103C), (0x103D, 0x103E),
    (0x103F, 0x103F), (0x1040, 0x1049), (0x104A, 0x104F), (0x1050, 0x1055), (0x1056, 0x1057), (0x1058, 0x1059),
    (0x105A, 0x105D), (0x105E, 0x1060), (0x1061, 0x1061), (0x1062, 0x1064), (0x1065, 0x1066), (0x1067, 0x106D),
    (0x106E, 0x1070), (0x1071, 0x1074), (0x1075, 0x1081), (0x1082, 0x1082), (0x1083, 0x1084), (0x1085, 0x1086),
    (0x1087, 0x108C), (0x108D, 0x108D), (0x108E, 0x108E), (0x108F, 0x108F), (0x1090, 0x1099), (0x109A, 0x109C),
    (0x109D, 0x109D), (0x109E, 0x109F), (0x10A0, 0x10C5), (0x10C7, 0x10C7), (0x10CD, 0x10CD), (0x10D0, 0x10FA),
    (0x10FB, 0x10FB), (0x10FC, 0x10FC), (0x10FD, 0x10FF), (0x1100, 0x1248), (0x124A, 0x124D), (0x1250, 0x1256),
    (0x1258, 0x1258), (0x125A, 0x125D), (0x1260, 0x1288), (0x128A, 0x128D), (0x1290, 0x12B0), (0x12B2, 0x12B5),
    (0x12B8, 0x12BE), (0x12C0, 0x12C0), (0x12C2, 0x12C5), (0x12C8, 0x12D6), (0x12D8, 0x1310), (0x1312, 0x1315),
    (0x1318, 0x135A), (0x135D, 0x135F), (0x1360, 0x1368), (0x1369, 0x137C), (0x1380, 0x138F), (0x1390, 0x1399),
    (0x13A0, 0x13F5), (0x13F8, 0x13FD), (0x1400, 0x1400), (0x1401, 0x166C), (0x166D, 0x166D), (0x166E, 0x166E),
    (0x166F, 0x167F), (0x1680, 0x1680), (0x1681, 0x169A), (0x169B, 0x169B), (0x169C, 0x169C), (0x16A0, 0x16EA),
    (0x16EB, 0x16ED), (0x16EE, 0x16F0), (0x16F1, 0x16F8), (0x1700, 0x1711), (0x1712, 0x1714), (0x1715, 0x1715),
    (0x171F, 0x1731), (0x1732, 0x1733), (0x1734, 0x1734), (0x1735, 0x1736), (0x1740, 0x1751), (0x1752, 0x1753),
    (0x1760, 0x176C), (0x176E, 0x1770), (0x1772, 0x1773), (0x1780, 0x17B3), (0x17B4, 0x17B5), (0x17B6, 0x17B6),
    (0x17B7, 0x17BD), (0x17BE, 0x17C5), (0x17C6, 0x17C6), (0x17C7, 0x17C8), (0x17C9, 0x17D3), (0x17D4, 0x17D6),
    (0x17D7, 0x17D7), (0x17D8, 0x17DA), (0x17DB, 0x17DB), (0x17DC, 0x17DC), (0x17DD, 0x17DD), (0x17E0, 0x17E9),
    (0x17F0, 0x17F9), (0x1800, 0x1805), (0x1806, 0x1806), (0x1807, 0x180A), (0x180B, 0x180D), (0x180E, 0x180E),
    (0x180F, 0x180F), (0x1810, 0x1819), (0x1820, 0x1842), (0x1843, 0x1843), (0x1844, 0x1878), (0x1880, 0x1884),
    (0x1885, 0x1886), (0x1887, 0x18A8), (0x18A9, 0x18A9), (0x18AA, 0x18AA), (0x18B0, 0x18F5), (0x1900, 0x191E),
    (0x1920, 0x1922), (0x1923, 0x1926), (0x1927, 0x1928), (0x1929, 0x192B), (0x1930, 0x1931), (0x1932, 0x1932),
    (0x1933, 0x1938), (0x1939, 0x193B), (0x1940, 0x1940), (0x1944, 0x1945), (0x1946, 0x194F), (0x1950, 0x196D),
    (0x1970, 0x1974), (0x1980, 0x19AB), (0x19B0, 0x19C9), (0x19D0, 0x19D9), (0x19DA, 0x19DA), (0x19DE, 0x19FF),
    (0x1A00, 0x1A16), (0x1A17, 0x1A18), (0x1A19, 0x1A1A), (0x1A1B, 0x1A1B), (0x1A1E, 0x1A1F), (0x1A20, 0x1A54),
    (0x1A55, 0x1A55), (0x1A56, 0x1A56), (0x1A57, 0x1A57), (0x1A58, 0x1A5E), (0x1A60, 0x1A60), (0x1A61, 0x1A61),
    (0x1A62, 0x1A62), (0x1A63, 0x1A64), (0x1A65, 0x1A6C), (0x1A6D, 0x1A72), (0x1A73, 0x1A7C), (0x1A7F, 0x1A7F),
    (0x1A80, 0x1A89), (0x1A90, 0x1A99), (0x1AA0, 0x1AA6), (0x1AA7, 0x1AA7), (0x1AA8, 0x1AAD), (0x1AB0, 0x1ABD),
    (0x1ABE, 0x1ABE), (0x1ABF, 0x1ACE), (0x1B00, 0x1B03), (0x1B04, 0x1B04), (0x1B05, 0x1B33), (0x1B34, 0x1B34),
    (0x1B35, 0x1B35), (0x1B36, 0x1B3A), (0x1B3B, 0x1B3B), (0x1B3C, 0x1B3C), (0x1B3D, 0x1B41), (0x1B42, 0x1B42),
    (0x1B43, 0x1B44), (0x1B45, 0x1B4C), (0x1B50, 0x1B59), (0x1B5A, 0x1B60), (0x1B61, 0x1B6A), (0x1B6B, 0x1B73),
    (0x1B74, 0x1B7C), (0x1B7D, 0x1B7E), (0x1B80, 0x1B81), (0x1B82, 0x1B82), (0x1B83, 0x1BA0), (0x1BA1, 0x1BA1),
    (0x1BA2, 0x1BA5), (0x1BA6, 0x1BA7), (0x1BA8, 0x1BA9), (0x1BAA, 0x1BAA), (0x1BAB, 0x1BAD), (0x1BAE, 0x1BAF),
    (0x1BB0, 0x1BB9), (0x1BBA, 0x1BE5), (0x1BE6, 0x1BE6), (0x1BE7, 0x1BE7), (0x1BE8, 0x1BE9), (0x1BEA, 0x1BEC),
    (0x1BED, 0x1BED), (0x1BEE, 0x1BEE), (0x1BEF, 0x1BF1), (0x1BF2, 0x1BF3), (0x1BFC, 0x1BFF), (0x1C00, 0x1C23),
    (0x1C24, 0x1C2B), (0x1C2C, 0x1C33), (0x1C34, 0x1C35), (0x1C36, 0x1C37), (0x1C3B, 0x1C3F), (0x1C40, 0x1C49),
    (0x1C4D, 0x1C4F), (0x1C50, 0x1C59), (0x1C5A, 0x1C77), (0x1C78, 0x1C7D), (0x1C7E, 0x1C7F), (0x1C80, 0x1C88),
    (0x1C90, 0x1CBA), (0x1CBD, 0x1CBF), (0x1CC0, 0x1CC7), (0x1CD0, 0x1CD2), (0x1CD3, 0x1CD3), (0x1CD4, 0x1CE0),
    (0x1CE1, 0x1CE1), (0x1CE2, 0x1CE8), (0x1CE9, 0x1CEC), (0x1CED, 0x1CED), (0x1CEE, 0x1CF3), (0x1CF4, 0x1CF4),
    (0x1CF5, 0x1CF6), (0x1CF7, 0x1CF7), (0x1CF8, 0x1CF9), (0x1CFA, 0x1CFA), (0x1D00, 0x1D2B), (0x1D2C, 0x1D6A),
    (0x1D6B, 0x1D77), (0x1D78, 0x1D78), (0x1D79, 0x1D9A), (0x1D9B, 0x1DBF), (0x1DC0, 0x1DFF), (0x1E00, 0x1E00),
    (0x1E01, 0x1E01), (0x1E02, 0x1E02), (0x1E03, 0x1E03), (0x1E04, 0x1E04), (0x1E05, 0x1E05), (0x1E06, 0x1E06),
    (0x1E07, 0x1E07), (0x1E08, 0x1E08), (0x1E09, 0x1E09), (0x1E0A, 0x1E0A), (0x1E0B, 0x1E0B), (0x1E0C, 0x1E0C),
    (0x1E0D, 0x1E0D), (0x1E0E, 0x1E0E), (0x1E0F, 0x1E0F), (0x1E10, 0x1E10), (0x1E11, 0x1E11), (0x1E12, 0x1E12),
    (0x1E13, 0x1E13), (0x1E14, 0x1E14), (0x1E15, 0x1E15), (0x1E16, 0x1E16), (0x1E17, 0x1E17), (0x1E18, 0x1E18),
    (0x1E19, 0x1E19), (0x1E1A, 0x1E1A), (0x1E1B, 0x1E1B), (0x1E1C, 0x1E1C), (0x1E1D, 0x1E1D), (0x1E1E, 0x1E1E),
    (0x1E1F, 0x1E1F), (0x1E20, 0x1E20), (0x1E21, 0x1E21), (0x1E22, 0x1E22), (0x1E23, 0x1E23), (0x1E24, 0x1E24),
    (0x1E25, 0x1E25), (0x1E26, 0x1E26), (0x1E27, 0x1E27), (0x1E28, 0x1E28), (0x1E29, 0x1E29), (0x1E2A, 0x1E2A),
    (0x1E2B, 0x1E2B), (0x1E2C, 0x1E2C), (0x1E2D, 0x1E2D), (0x1E2E, 0x1E2E), (0x1E2F, 0x1E2F), (0x1E30, 0x1E30),
    (0x1E31, 0x1E31), (0x1E32, 0x1E32), (0x1E33, 0x1E33), (0x1E34, 0x1E34), (0x1E35, 0x1E35), (0x1E36, 0x1E36),
    (0x1E37, 0x1E37), (0x1E38, 0x1E38), (0x1E39, 0x1E39), (0x1E3A, 0x1E3A), (0x1E3B, 0x1E3B), (0x1E3C, 0x1E3C),
    (0x1E3D, 0x1E3D), (0x1E3E, 0x1E3E), (0x1E3F, 0x1E3F), (0x1E40, 0x1E40), (0x1E41, 0x1E41), (0x1E42, 0x1E42),
    (0x1E43, 0x1E43), (0x1E44, 0x1E44), (0x1E45, 0x1E45), (0x1E46, 0x1E46), (0x1E47, 0x1E47), (0x1E48, 0x1E48),
    (0x1E49, 0x1E49), (0x1E4A, 0x1E4A), (0x1E4B, 0x1E4B), (0x1E4C, 0x1E4C), (0x1E4D, 0x1E4D), (0x1E4E, 0x1E4E),
    (0x1E4F, 0x1E4F), (0x1E50, 0x1E50), (0x1E51, 0x1E51), (0x1E52, 0x1E52), (0x1E53, 0x1E53), (0x1E54, 0x1E54),
    (0x1E55, 0x1E55), (0x1E56, 0x1E56), (0x1E57, 0x1E57), (0x1E58, 0x1E58), (0x1E59, 0x1E59), (0x1E5A, 0x1E5A),
    (0x1E5B, 0x1E5B), (0x1E5C, 0x1E5C), (0x1E5D, 0x1E5D), (0x1E5E, 0x1E5E), (0x1E5F, 0x1E5F), (0x1E60, 0x1E60),
    (0x1E61, 0x1E61), (0x1E62, 0x1E62), (0x1E63, 0x1E63), (0x1E64, 0x1E64), (0x1E65, 0x1E65), (0x1E66, 0x1E66),
    (0x1E67, 0x1E67), (0x1E68, 0x1E68), (0x1E69, 0x1E69), (0x1E6A, 0x1E6A), (0x1E6B, 0x1E6B), (0x1E6C, 0x1E6C),
    (0x1E6D, 0x1E6D), (0x1E6E, 0x1E6E), (0x1E6F, 0x1E6F), (0x1E70, 0x1E70), (0x1E71, 0x1E71), (0x1E72, 0x1E72),
    (0x1E73, 0x1E73), (0x1E74, 0x1E74), (0x1E75, 0x1E75), (0x1E76, 0x1E76), (0x1E77, 0x1E77), (0x1E78, 0x1E78),
    (0x1E79, 0x1E79), (0x1E7A, 0x1E7A), (0x1E7B, 0x1E7B), (0x1E7C, 0x1E7C), (0x1E7D, 0x1E7D), (0x1E7E, 0x1E7E),
    (0x1E7F, 0x1E7F), (0x1E80, 0x1E80), (0x1E81, 0x1E81), (0x1E82, 0x1E82), (0x1E83, 0x1E83), (0x1E84, 0x1E84),
    (0x1E85, 0x1E85), (0x1E86, 0x1E86), (0x1E87, 0x1E87), (0x1E88, 0x1E88), (0x1E89, 0x1E89), (0x1E8A, 0x1E8A),
    (0x1E8B, 0x1E8B), (0x1E8C, 0x1E8C), (0x1E8D, 0x1E8D), (0x1E8E, 0x1E8E), (0x1E8F, 0x1E8F), (0x1E90, 0x1E90),
    (0x1E91, 0x1E91), (0x1E92, 0x1E92), (0x1E93, 0x1E93), (0x1E94, 0x1E94), (0x1E95, 0x1E9D), (0x1E9E, 0x1E9E),
    (0x1E9F, 0x1E9F), (0x1EA0, 0x1EA0), (0x1EA1, 0x1EA1), (0x1EA2, 0x1EA2), (0x1EA3, 0x1EA3), (0x1EA4, 0x1EA4),
    (0x1EA5, 0x1EA5), (0x1EA6, 0x1EA6), (0x1EA7, 0x1EA7), (0x1EA8, 0x1EA8), (0x1EA9, 0x1EA9), (0x1EAA, 0x1EAA),
    (0x1EAB, 0x1EAB), (0x1EAC, 0x1EAC), (0x1EAD, 0x1EAD), (0x1EAE, 0x1EAE), (0x1EAF, 0x1EAF), (0x1EB0, 0x1EB0),
    (0x1EB1, 0x1EB1), (0x1EB2, 0x1EB2), (0x1EB3, 0x1EB3), (0x1EB4, 0x1EB4), (0x1EB5, 0x1EB5), (0x1EB6, 0x1EB6),
    (0x1EB7, 0x1EB7), (0x1EB8, 0x1EB8), (0x1EB9, 0x1EB9), (0x1EBA, 0x1EBA), (0x1EBB, 0x1EBB), (0x1EBC, 0x1EBC),
    (0x1EBD, 0x1EBD), (0x1EBE, 0x1EBE), (0x1EBF, 0x1EBF), (0x1EC0, 0x1EC0), (0x1EC1, 0x1EC1), (0x1EC2, 0x1EC2),
    (0x1EC3, 0x1EC3), (0x1EC4, 0x1EC4), (0x1EC5, 0x1EC5), (0x1EC6, 0x1EC6), (0x1EC7, 0x1EC7), (0x1EC8, 0x1EC8),
    (0x1EC9, 0x1EC9), (0x1ECA, 0x1ECA), (0x1ECB, 0x1ECB), (0x1ECC, 0x1ECC), (0x1ECD, 0x1ECD), (0x1ECE, 0x1ECE),
    (0x1ECF, 0x1ECF), (0x1ED0, 0x1ED0), (0x1ED1, 0x1ED1), (0x1ED2, 0x1ED2), (0x1ED3, 0x1ED3), (0x1ED4, 0x1ED4),
    (0x1ED5, 0x1ED5), (0x1ED6, 0x1ED6), (0x1ED7, 0x1ED7), (0x1ED8, 0x1ED8), (0x1ED9, 0x1ED9), (0x1EDA, 0x1EDA),
    (0x1EDB, 0x1EDB), (0x1EDC, 0x1EDC), (0x1EDD, 0x1EDD), (0x1EDE, 0x1EDE), (0x1EDF, 0x1EDF), (0x1EE0, 0x1EE0),
    (0x1EE1, 0x1EE1), (0x1EE2, 0x1EE2), (0x1EE3, 0x1EE3), (0x1EE4, 0x1EE4), (0x1EE5, 0x1EE5), (0x1EE6, 0x1EE6),
    (0x1EE7, 0x1EE7), (0x1EE8, 0x1EE8), (0x1EE9, 0x1EE9), (0x1EEA, 0x1EEA), (0x1EEB, 0x1EEB), (0x1EEC, 0x1EEC),
    (0x1EED, 0x1EED), (0x1EEE, 0x1EEE), (0x1EEF, 0x1EEF), (0x1EF0, 0x1EF0), (0x1EF1, 0x1EF1), (0x1EF2, 0x1EF2),
    (0x1EF3, 0x1EF3), (0x1EF4, 0x1EF4), (0x1EF5, 0x1EF5), (0x1EF6, 0x1EF6), (0x1EF7, 0x1EF7), (0x1EF8, 0x1EF8),
    (0x1EF9, 0x1EF9), (0x1EFA, 0x1EFA), (0x1EFB, 0x1EFB), (0x1EFC, 0x1EFC), (0x1EFD, 0x1EFD), (0x1EFE, 0x1EFE),
    (0x1EFF, 0x1F07), (0x1F08, 0x1F0F), (0x1F10, 0x1F15), (0x1F18, 0x1F1D), (0x1F20, 0x1F27), (0x1F28, 0x1F2F),
    (0x1F30, 0x1F37), (0x1F38, 0x1F3F), (0x1F40, 0x1F45), (0x1F48, 0x1F4D), (0x1F50, 0x1F57), (0x1F59, 0x1F59),
    (0x1F5B, 0x1F5B), (0x1F5D, 0x1F5D), (0x1F5F, 0x1F5F), (0x1F60, 0x1F67), (0x1F68, 0x1F6F), (0x1F70, 0x1F7D),
    (0x1F80, 0x1F87), (0x1F88, 0x1F8F), (0x1F90, 0x1F97), (0x1F98, 0x1F9F), (0x1FA0, 0x1FA7), (0x1FA8, 0x1FAF),
    (0x1FB0, 0x1FB4), (0x1FB6, 0x1FB7), (0x1FB8, 0x1FBB), (0x1FBC, 0x1FBC), (0x1FBD, 0x1FBD), (0x1FBE, 0x1FBE),
    (0x1FBF, 0x1FC1), (0x1FC2, 0x1FC4), (0x1FC6, 0x1FC7), (0x1FC8, 0x1FCB), (0x1FCC, 0x1FCC), (0x1FCD, 0x1FCF),
    (0x1FD0, 0x1FD3), (0x1FD6, 0x1FD7), (0x1FD8, 0x1FDB), (0x1FDD, 0x1FDF), (0x1FE0, 0x1FE7), (0x1FE8, 0x1FEC),
    (0x1FED, 0x1FEF), (0x1FF2, 0x1FF4), (0x1FF6, 0x1FF7), (0x1FF8, 0x1FFB), (0x1FFC, 0x1FFC), (0x1FFD, 0x1FFE),
    (0x2000, 0x200A), (0x200B, 0x200F), (0x2010, 0x2015), (0x2016, 0x2017), (0x2018, 0x2018), (0x2019, 0x2019),
    (0x201A, 0x201A), (0x201B, 0x201C), (0x201D, 0x201D), (0x201E, 0x201E), (0x201F, 0x201F), (0x2020, 0x2027),
    (0x2028, 0x2028), (0x2029, 0x2029), (0x202A, 0x202E), (0x202F, 0x202F), (0x2030, 0x2038), (0x2039, 0x2039),
    (0x203A, 0x203A), (0x203B, 0x203E), (0x203F, 0x2040), (0x2041, 0x2043), (0x2044, 0x2044), (0x2045, 0x2045),
    (0x2046, 0x2046), (0x2047, 0x2051), (0x2052, 0x2052), (0x2053, 0x2053), (0x2054, 0x2054), (0x2055, 0x205E),
    (0x205F, 0x205F), (0x2060, 0x2064), (0x2066, 0x206F), (0x2070, 0x2070), (0x2071, 0x2071), (0x2074, 0x2079),
    (0x207A, 0x207C), (0x207D, 0x207D), (0x207E, 0x207E), (0x207F, 0x207F), (0x2080, 0x2089), (0x208A, 0x208C),
    (0x208D, 0x208D), (0x208E, 0x208E), (0x2090, 0x209C), (0x20A0, 0x20C0), (0x20D0, 0x20DC), (0x20DD, 0x20E0),
    (0x20E1, 0x20E1), (0x20E2, 0x20E4), (0x20E5, 0x20F0), (0x2100, 0x2101), (0x2102, 0x2102), (0x2103, 0x2106),
    (0x2107, 0x2107), (0x2108, 0x2109), (0x210A, 0x210A), (0x210B, 0x210D), (0x210E, 0x210F), (0x2110, 0x2112),
    (0x2113, 0x2113), (0x2114, 0x2114), (0x2115, 0x2115), (0x2116, 0x2117), (0x2118, 0x2118), (0x2119, 0x211D),
    (0x211E, 0x2123), (0x2124, 0x2124), (0x2125, 0x2125), (0x2126, 0x2126), (0x2127, 0x2127), (0x2128, 0x2128),
    (0x2129, 0x2129), (0x212A, 0x212D), (0x212E, 0x212E), (0x212F, 0x212F), (0x2130, 0x2133), (0x2134, 0x2134),
    (0x2135, 0x2138), (0x2139, 0x2139), (0x213A, 0x213B), (0x213C, 0x213D), (0x213E, 0x213F), (0x2140, 0x2144),
    (0x2145, 0x2145), (0x2146, 0x2149), (0x214A, 0x214A), (0x214B, 0x214B), (0x214C, 0x214D), (0x214E, 0x214E),
    (0x214F, 0x214F), (0x2150, 0x215F), (0x2160, 0x2182), (0x2183, 0x2183), (0x2184, 0x2184), (0x2185, 0x2188),
    (0x2189, 0x2189), (0x218A, 0x218B), (0x2190, 0x2194), (0x2195, 0x2199), (0x219A, 0x219B), (0x219C, 0x219F),
    (0x21A0, 0x21A0), (0x21A1, 0x21A2), (0x21A3, 0x21A3), (0x21A4, 0x21A5), (0x21A6, 0x21A6), (0x21A7, 0x21AD),
    (0x21AE, 0x21AE), (0x21AF, 0x21CD), (0x21CE, 0x21CF), (0x21D0, 0x21D1), (0x21D2, 0x21D2), (0x21D3, 0x21D3),
    (0x21D4, 0x21D4), (0x21D5, 0x21F3), (0x21F4, 0x22FF), (0x2300, 0x2307), (0x2308, 0x2308), (0x2309, 0x2309),
    (0x230A, 0x230A), (0x230B, 0x230B), (0x230C, 0x231F), (0x2320, 0x2321), (0x2322, 0x2328), (0x2329, 0x2329),
    (0x232A, 0x232A), (0x232B, 0x237B), (0x237C, 0x237C), (0x237D, 0x239A), (0x239B, 0x23B3), (0x23B4, 0x23DB),
    (0x23DC, 0x23E1), (0x23E2, 0x2426), (0x2440, 0x244A), (0x2460, 0x249B), (0x249C, 0x24E9), (0x24EA, 0x24FF),
    (0x2500, 0x25B6), (0x25B7, 0x25B7), (0x25B8, 0x25C0), (0x25C1, 0x25C1), (0x25C2, 0x25F7), (0x25F8, 0x25FF),
    (0x2600, 0x266E), (0x266F, 0x266F), (0x2670, 0x2767), (0x2768, 0x2768), (0x2769, 0x2769), (0x276A, 0x276A),
    (0x276B, 0x276B), (0x276C, 0x276C), (0x276D, 0x276D), (0x276E, 0x276E), (0x276F, 0x276F), (0x2770, 0x2770),
    (0x2771, 0x2771), (0x2772, 0x2772), (0x2773, 0x2773), (0x2774, 0x2774), (0x2775, 0x2775), (0x2776, 0x2793),
    (0x2794, 0x27BF), (0x27C0, 0x27C4), (0x27C5, 0x27C5), (0x27C6, 0x27C6), (0x27C7, 0x27E5), (0x27E6, 0x27E6),
    (0x27E7, 0x27E7), (0x27E8, 0x27E8), (0x27E9, 0x27E9), (0x27EA, 0x27EA), (0x27EB, 0x27EB), (0x27EC, 0x27EC),
    (0x27ED, 0x27ED), (0x27EE, 0x27EE), (0x27EF, 0x27EF), (0x27F0, 0x27FF), (0x2800, 0x28FF), (0x2900, 0x2982),
    (0x2983, 0x2983), (0x2984, 0x2984), (0x2985, 0x2985), (0x2986, 0x2986), (0x2987, 0x2987), (0x2988, 0x2988),
    (0x2989, 0x2989), (0x298A, 0x298A), (0x298B, 0x298B), (0x298C, 0x298C), (0x298D, 0x298D), (0x298E, 0x298E),
    (0x298F, 0x298F), (0x2990, 0x2990), (0x2991, 0x2991), (0x2992, 0x2992), (0x2993, 0x2993), (0x2994, 0x2994),
    (0x2995, 0x2995), (0x2996, 0x2996), (0x2997, 0x2997), (0x2998, 0x2998), (0x2999, 0x29D7), (0x29D8, 0x29D8),
    (0x29D9, 0x29D9), (0x29DA, 0x29DA), (0x29DB, 0x29DB), (0x29DC, 0x29FB), (0x29FC, 0x29FC), (0x29FD, 0x29FD),
    (0x29FE, 0x2AFF), (0x2B00, 0x2B2F), (0x2B30, 0x2B44), (0x2B45, 0x2B46), (0x2B47, 0x2B4C), (0x2B4D, 0x2B73),
    (0x2B76, 0x2B95), (0x2B97, 0x2BFF), (0x2C00, 0x2C2F), (0x2C30, 0x2C5F), (0x2C60, 0x2C60), (0x2C61, 0x2C61),
    (0x2C62, 0x2C64), (0x2C65, 0x2C66), (0x2C67, 0x2C67), (0x2C68, 0x2C68), (0x2C69, 0x2C69), (0x2C6A, 0x2C6A),
    (0x2C6B, 0x2C6B), (0x2C6C, 0x2C6C), (0x2C6D, 0x2C70), (0x2C71, 0x2C71), (0x2C72, 0x2C72), (0x2C73, 0x2C74),
    (0x2C75, 0x2C75), (0x2C76, 0x2C7B), (0x2C7C, 0x2C7D), (0x2C7E, 0x2C80), (0x2C81, 0x2C81), (0x2C82, 0x2C82),
    (0x2C83, 0x2C83), (0x2C84, 0x2C84), (0x2C85, 0x2C85), (0x2C86, 0x2C86), (0x2C87, 0x2C87), (0x2C88, 0x2C88),
    (0x2C89, 0x2C89), (0x2C8A, 0x2C8A), (0x2C8B, 0x2C8B), (0x2C8C, 0x2C8C), (0x2C8D, 0x2C8D), (0x2C8E, 0x2C8E),
    (0x2C8F, 0x2C8F), (0x2C90, 0x2C90), (0x2C91, 0x2C91), (0x2C92, 0x2C92), (0x2C93, 0x2C93), (0x2C94, 0x2C94),
    (0x2C95, 0x2C95), (0x2C96, 0x2C96), (0x2C97, 0x2C97), (0x2C98, 0x2C98), (0x2C99, 0x2C99), (0x2C9A, 0x2C9A),
    (0x2C9B, 0x2C9B), (0x2C9C, 0x2C9C), (0x2C9D, 0x2C9D), (0x2C9E, 0x2C9E), (0x2C9F, 0x2C9F), (0x2CA0, 0x2CA0),
    (0x2CA1, 0x2CA1), (0x2CA2, 0x2CA2), (0x2CA3, 0x2CA3), (0x2CA4, 0x2CA4), (0x2CA5, 0x2CA5), (0x2CA6, 0x2CA6),
    (0x2CA7, 0x2CA7), (0x2CA8, 0x2CA8), (0x2CA9, 0x2CA9), (0x2CAA, 0x2CAA), (0x2CAB, 0x2CAB), (0x2CAC, 0x2CAC),
    (0x2CAD, 0x2CAD), (0x2CAE, 0x2CAE), (0x2CAF, 0x2CAF), (0x2CB0, 0x2CB0), (0x2CB1, 0x2CB1), (0x2CB2, 0x2CB2),
    (0x2CB3, 0x2CB3), (0x2CB4, 0x2CB4), (0x2CB5, 0x2CB5), (0x2CB6, 0x2CB6), (0x2CB7, 0x2CB7), (0x2CB8, 0x2CB8),
    (0x2CB9, 0x2CB9), (0x2CBA, 0x2CBA), (0x2CBB, 0x2CBB), (0x2CBC, 0x2CBC), (0x2CBD, 0x2CBD), (0x2CBE, 0x2CBE),
    (0x2CBF, 0x2CBF), (0x2CC0, 0x2CC0), (0x2CC1, 0x2CC1), (0x2CC2, 0x2CC2), (0x2CC3, 0x2CC3), (0x2CC4, 0x2CC4),
    (0x2CC5, 0x2CC5), (0x2CC6, 0x2CC6), (0x2CC7, 0x2CC7), (0x2CC8, 0x2CC8), (0x2CC9, 0x2CC9), (0x2CCA, 0x2CCA),
    (0x2CCB, 0x2CCB), (0x2CCC, 0x2CCC), (0x2CCD, 0x2CCD), (0x2CCE, 0x2CCE), (0x2CCF, 0x2CCF), (0x2CD0, 0x2CD0),
    (0x2CD1, 0x2CD1), (0x2CD2, 0x2CD2), (0x2CD3, 0x2CD3), (0x2CD4, 0x2CD4), (0x2CD5, 0x2CD5), (0x2CD6, 0x2CD6),
    (0x2CD7, 0x2CD7), (0x2CD8, 0x2CD8), (0x2CD9, 0x2CD9), (0x2CDA, 0x2CDA), (0x2CDB, 0x2CDB), (0x2CDC, 0x2CDC),
    (0x2CDD, 0x2CDD), (0x2CDE, 0x2CDE), (0x2CDF, 0x2CDF), (0x2CE0, 0x2CE0), (0x2CE1, 0x2CE1), (0x2CE2, 0x2CE2),
    (0x2CE3, 0x2CE4), (0x2CE5, 0x2CEA), (0x2CEB, 0x2CEB), (0x2CEC, 0x2CEC), (0x2CED, 0x2CED), (0x2CEE, 0x2CEE),
    (0x2CEF, 0x2CF1), (0x2CF2, 0x2CF2), (0x2CF3, 0x2CF3), (0x2CF9, 0x2CFC), (0x2CFD, 0x2CFD), (0x2CFE, 0x2CFF),
    (0x2D00, 0x2D25), (0x2D27, 0x2D27), (0x2D2D, 0x2D2D), (0x2D30, 0x2D67), (0x2D6F, 0x2D6F), (0x2D70, 0x2D70),
    (0x2D7F, 0x2D7F), (0x2D80, 0x2D96), (0x2DA0, 0x2DA6), (0x2DA8, 0x2DAE), (0x2DB0, 0x2DB6), (0x2DB8, 0x2DBE),
    (0x2DC0, 0x2DC6), (0x2DC8, 0x2DCE), (0x2DD0, 0x2DD6), (0x2DD8, 0x2DDE), (0x2DE0, 0x2DFF), (0x2E00, 0x2E01),
    (0x2E02, 0x2E02), (0x2E03, 0x2E03), (0x2E04, 0x2E04), (0x2E05, 0x2E05), (0x2E06, 0x2E08), (0x2E09, 0x2E09),
    (0x2E0A, 0x2E0A), (0x2E0B, 0x2E0B), (0x2E0C, 0x2E0C), (0x2E0D, 0x2E0D), (0x2E0E, 0x2E16), (0x2E17, 0x2E17),
    (0x2E18, 0x2E19), (0x2E1A, 0x2E1A), (0x2E1B, 0x2E1B), (0x2E1C, 0x2E1C), (0x2E1D, 0x2E1D), (0x2E1E, 0x2E1F),
    (0x2E20, 0x2E20), (0x2E21, 0x2E21), (0x2E22, 0x2E22), (0x2E23, 0x2E23), (0x2E24, 0x2E24), (0x2E25, 0x2E25),
    (0x2E26, 0x2E26), (0x2E27, 0x2E27), (0x2E28, 0x2E28), (0x2E29, 0x2E29), (0x2E2A, 0x2E2E), (0x2E2F, 0x2E2F),
    (0x2E30, 0x2E39), (0x2E3A, 0x2E3B), (0x2E3C, 0x2E3F), (0x2E40, 0x2E40), (0x2E41, 0x2E41), (0x2E42, 0x2E42),
    (0x2E43, 0x2E4F), (0x2E50, 0x2E51), (0x2E52, 0x2E54), (0x2E55, 0x2E55), (0x2E56, 0x2E56), (0x2E57, 0x2E57),
    (0x2E58, 0x2E58), (0x2E59, 0x2E59), (0x2E5A, 0x2E5A), (0x2E5B, 0x2E5B), (0x2E5C, 0x2E5C), (0x2E5D, 0x2E5D),
    (0x2E80, 0x2E99), (0x2E9B, 0x2EF3), (0x2F00, 0x2FD5), (0x2FF0, 0x2FFB), (0x3000, 0x3000), (0x3001, 0x3003),
    (0x3004, 0x3004), (0x3005, 0x3005), (0x3006, 0x3006), (0x3007, 0x3007), (0x3008, 0x3008), (0x3009, 0x3009),
    (0x300A, 0x300A), (0x300B, 0x300B), (0x300C, 0x300C), (0x300D, 0x300D), (0x300E, 0x300E), (0x300F, 0x300F),
    (0x3010, 0x3010), (0x3011, 0x3011), (0x3012, 0x3013), (0x3014, 0x3014), (0x3015, 0x3015), (0x3016, 0x3016),
    (0x3017, 0x3017), (0x3018, 0x3018), (0x3019, 0x3019), (0x301A, 0x301A), (0x301B, 0x301B), (0x301C, 0x301C),
    (0x301D, 0x301D), (0x301E, 0x301F), (0x3020, 0x3020), (0x3021, 0x3029), (0x302A, 0x302D), (0x302E, 0x302F),
    (0x3030, 0x3030), (0x3031, 0x3035), (0x3036, 0x3037), (0x3038, 0x303A),
];

const CATEGORY_BOUNDS_2: [(u32, u32); 1000] = [
    (0x303B, 0x303B), (0x303C, 0x303C), (0x303D, 0x303D), (0x303E, 0x303F), (0x3041, 0x3096), (0x3099, 0x309A),
    (0x309B, 0x309C), (0x309D, 0x309E), (0x309F, 0x309F), (0x30A0, 0x30A0), (0x30A1, 0x30FA), (0x30FB, 0x30FB),
    (0x30FC, 0x30FE), (0x30FF, 0x30FF), (0x3105, 0x312F), (0x3131, 0x318E), (0x3190, 0x3191), (0x3192, 0x3195),
    (0x3196, 0x319F), (0x31A0, 0x31BF), (0x31C0, 0x31E3), (0x31F0, 0x31FF), (0x3200, 0x321E), (0x3220, 0x3229),
    (0x322A, 0x3247), (0x3248, 0x324F), (0x3250, 0x3250), (0x3251, 0x325F), (0x3260, 0x327F), (0x3280, 0x3289),
    (0x328A, 0x32B0), (0x32B1, 0x32BF), (0x32C0, 0x33FF), (0x3400, 0x4DBF), (0x4DC0, 0x4DFF), (0x4E00, 0xA014),
    (0xA015, 0xA015), (0xA016, 0xA48C), (0xA490, 0xA4C6), (0xA4D0, 0xA4F7), (0xA4F8, 0xA4FD), (0xA4FE, 0xA4FF),
    (0xA500, 0xA60B), (0xA60C, 0xA60C), (0xA60D, 0xA60F), (0xA610, 0xA61F), (0xA620, 0xA629), (0xA62A, 0xA62B),
    (0xA640, 0xA640), (0xA641, 0xA641), (0xA642, 0xA642), (0xA643, 0xA643), (0xA644, 0xA644), (0xA645, 0xA645),
    (0xA646, 0xA646), (0xA647, 0xA647), (0xA648, 0xA648), (0xA649, 0xA649), (0xA64A, 0xA64A), (0xA64B, 0xA64B),
    (0xA64C, 0xA64C), (0xA64D, 0xA64D), (0xA64E, 0xA64E), (0xA64F, 0xA64F), (0xA650, 0xA650), (0xA651, 0xA651),
    (0xA652, 0xA652), (0xA653, 0xA653), (0xA654, 0xA654), (0xA655, 0xA655), (0xA656, 0xA656), (0xA657, 0xA657),
    (0xA658, 0xA658), (0xA659, 0xA659), (0xA65A, 0xA65A), (0xA65B, 0xA65B), (0xA65C, 0xA65C), (0xA65D, 0xA65D),
    (0xA65E, 0xA65E), (0xA65F, 0xA65F), (0xA660, 0xA660), (0xA661, 0xA661), (0xA662, 0xA662), (0xA663, 0xA663),
    (0xA664, 0xA664), (0xA665, 0xA665), (0xA666, 0xA666), (0xA667, 0xA667), (0xA668, 0xA668), (0xA669, 0xA669),
    (0xA66A, 0xA66A), (0xA66B, 0xA66B), (0xA66C, 0xA66C), (0xA66D, 0xA66D), (0xA66E, 0xA66E), (0xA66F, 0xA66F),
    (0xA670, 0xA672), (0xA673, 0xA673), (0xA674, 0xA67D), (0xA67E, 0xA67E), (0xA67F, 0xA67F), (0xA680, 0xA680),
    (0xA681, 0xA681), (0xA682, 0xA682), (0xA683, 0xA683), (0xA684, 0xA684), (0xA685, 0xA685), (0xA686, 0xA686),
    (0xA687, 0xA687), (0xA688, 0xA688), (0xA689, 0xA689), (0xA68A, 0xA68A), (0xA68B, 0xA68B), (0xA68C, 0xA68C),
    (0xA68D, 0xA68D), (0xA68E, 0xA68E), (0xA68F, 0xA68F), (0xA690, 0xA690), (0xA691, 0xA691), (0xA692, 0xA692),
    (0xA693, 0xA693), (0xA694, 0xA694), (0xA695, 0xA695), (0xA696, 0xA696), (0xA697, 0xA697), (0xA698, 0xA698),
    (0xA699, 0xA699), (0xA69A, 0xA69A), (0xA69B, 0xA69B), (0xA69C, 0xA69D), (0xA69E, 0xA69F), (0xA6A0, 0xA6E5),
    (0xA6E6, 0xA6EF), (0xA6F0, 0xA6F1), (0xA6F2, 0xA6F7), (0xA700, 0xA716), (0xA717, 0xA71F), (0xA720, 0xA721),
    (0xA722, 0xA722), (0xA723, 0xA723), (0xA724, 0xA724), (0xA725, 0xA725), (0xA726, 0xA726), (0xA727, 0xA727),
    (0xA728, 0xA728), (0xA729, 0xA729), (0xA72A, 0xA72A), (0xA72B, 0xA72B), (0xA72C, 0xA72C), (0xA72D, 0xA72D),
    (0xA72E, 0xA72E), (0xA72F, 0xA731), (0xA732, 0xA732), (0xA733, 0xA733), (0xA734, 0xA734), (0xA735, 0xA735),
    (0xA736, 0xA736), (0xA737, 0xA737), (0xA738, 0xA738), (0xA739, 0xA739), (0xA73A, 0xA73A), (0xA73B, 0xA73B),
    (0xA73C, 0xA73C), (0xA73D, 0xA73D), (0xA73E, 0xA73E), (0xA73F, 0xA73F), (0xA740, 0xA740), (0xA741, 0xA741),
    (0xA742, 0xA742), (0xA743, 0xA743), (0xA744, 0xA744), (0xA745, 0xA745), (0xA746, 0xA746), (0xA747, 0xA747),
    (0xA748, 0xA748), (0xA749, 0xA749), (0xA74A, 0xA74A), (0xA74B, 0xA74B), (0xA74C, 0xA74C), (0xA74D, 0xA74D),
    (0xA74E, 0xA74E), (0xA74F, 0xA74F), (0xA750, 0xA750), (0xA751, 0xA751), (0xA752, 0xA752), (0xA753, 0xA753),
    (0xA754, 0xA754), (0xA755, 0xA755), (0xA756, 0xA756), (0xA757, 0xA757), (0xA758, 0xA758), (0xA759, 0xA759),
    (0xA75A, 0xA75A), (0xA75B, 0xA75B), (0xA75C, 0xA75C), (0xA75D, 0xA75D), (0xA75E, 0xA75E), (0xA75F, 0xA75F),
    (0xA760, 0xA760), (0xA761, 0xA761), (0xA762, 0xA762), (0xA763, 0xA763), (0xA764, 0xA764), (0xA765, 0xA765),
    (0xA766, 0xA766), (0xA767, 0xA767), (0xA768, 0xA768), (0xA769, 0xA769), (0xA76A, 0xA76A), (0xA76B, 0xA76B),
    (0xA76C, 0xA76C), (0xA76D, 0xA76D), (0xA76E, 0xA76E), (0xA76F, 0xA76F), (0xA770, 0xA770), (0xA771, 0xA778),
    (0xA779, 0xA779), (0xA77A, 0xA77A), (0xA77B, 0xA77B), (0xA77C, 0xA77C), (0xA77D, 0xA77E), (0xA77F, 0xA77F),
    (0xA780, 0xA780), (0xA781, 0xA781), (0xA782, 0xA782), (0xA783, 0xA783), (0xA784, 0xA784), (0xA785, 0xA785),
    (0xA786, 0xA786), (0xA787, 0xA787), (0xA788, 0xA788), (0xA789, 0xA78A), (0xA78B, 0xA78B), (0xA78C, 0xA78C),
    (0xA78D, 0xA78D), (0xA78E, 0xA78E), (0xA78F, 0xA78F), (0xA790, 0xA790), (0xA791, 0xA791), (0xA792, 0xA792),
    (0xA793, 0xA795), (0xA796, 0xA796), (0xA797, 0xA797), (0xA798, 0xA798), (0xA799, 0xA799), (0xA79A, 0xA79A),
    (0xA79B, 0xA79B), (0xA79C, 0xA79C), (0xA79D, 0xA79D), (0xA79E, 0xA79E), (0xA79F, 0xA79F), (0xA7A0, 0xA7A0),
    (0xA7A1, 0xA7A1), (0xA7A2, 0xA7A2), (0xA7A3, 0xA7A3), (0xA7A4, 0xA7A4), (0xA7A5, 0xA7A5), (0xA7A6, 0xA7A6),
    (0xA7A7, 0xA7A7), (0xA7A8, 0xA7A8), (0xA7A9, 0xA7A9), (0xA7AA, 0xA7AE), (0xA7AF, 0xA7AF), (0xA7B0, 0xA7B4),
    (0xA7B5, 0xA7B5), (0xA7B6, 0xA7B6), (0xA7B7, 0xA7B7), (0xA7B8, 0xA7B8), (0xA7B9, 0xA7B9), (0xA7BA, 0xA7BA),
    (0xA7BB, 0xA7BB), (0xA7BC, 0xA7BC), (0xA7BD, 0xA7BD), (0xA7BE, 0xA7BE), (0xA7BF, 0xA7BF), (0xA7C0, 0xA7C0),
    (0xA7C1, 0xA7C1), (0xA7C2, 0xA7C2), (0xA7C3, 0xA7C3), (0xA7C4, 0xA7C7), (0xA7C8, 0xA7C8), (0xA7C9, 0xA7C9),
    (0xA7CA, 0xA7CA), (0xA7D0, 0xA7D0), (0xA7D1, 0xA7D1), (0xA7D3, 0xA7D3), (0xA7D5, 0xA7D5), (0xA7D6, 0xA7D6),
    (0xA7D7, 0xA7D7), (0xA7D8, 0xA7D8), (0xA7D9, 0xA7D9), (0xA7F2, 0xA7F4), (0xA7F5, 0xA7F5), (0xA7F6, 0xA7F6),
    (0xA7F7, 0xA7F7), (0xA7F8, 0xA7F9), (0xA7FA, 0xA7FA), (0xA7FB, 0xA801), (0xA802, 0xA802), (0xA803, 0xA805),
    (0xA806, 0xA806), (0xA807, 0xA80A), (0xA80B, 0xA80B), (0xA80C, 0xA822), (0xA823, 0xA824), (0xA825, 0xA826),
    (0xA827, 0xA827), (0xA828, 0xA82B), (0xA82C, 0xA82C), (0xA830, 0xA835), (0xA836, 0xA837), (0xA838, 0xA838),
    (0xA839, 0xA839), (0xA840, 0xA873), (0xA874, 0xA877), (0xA880, 0xA881), (0xA882, 0xA8B3), (0xA8B4, 0xA8C3),
    (0xA8C4, 0xA8C5), (0xA8CE, 0xA8CF), (0xA8D0, 0xA8D9), (0xA8E0, 0xA8F1), (0xA8F2, 0xA8F7), (0xA8F8, 0xA8FA),
    (0xA8FB, 0xA8FB), (0xA8FC, 0xA8FC), (0xA8FD, 0xA8FE), (0xA8FF, 0xA8FF), (0xA900, 0xA909), (0xA90A, 0xA925),
    (0xA926, 0xA92D), (0xA92E, 0xA92F), (0xA930, 0xA946), (0xA947, 0xA951), (0xA952, 0xA953), (0xA95F, 0xA95F),
    (0xA960, 0xA97C), (0xA980, 0xA982), (0xA983, 0xA983), (0xA984, 0xA9B2), (0xA9B3, 0xA9B3), (0xA9B4, 0xA9B5),
    (0xA9B6, 0xA9B9), (0xA9BA, 0xA9BB), (0xA9BC, 0xA9BD), (0xA9BE, 0xA9C0), (0xA9C1, 0xA9CD), (0xA9CF, 0xA9CF),
    (0xA9D0, 0xA9D9), (0xA9DE, 0xA9DF), (0xA9E0, 0xA9E4), (0xA9E5, 0xA9E5), (0xA9E6, 0xA9E6), (0xA9E7, 0xA9EF),
    (0xA9F0, 0xA9F9), (0xA9FA, 0xA9FE), (0xAA00, 0xAA28), (0xAA29, 0xAA2E), (0xAA2F, 0xAA30), (0xAA31, 0xAA32),
    (0xAA33, 0xAA34), (0xAA35, 0xAA36), (0xAA40, 0xAA42), (0xAA43, 0xAA43), (0xAA44, 0xAA4B), (0xAA4C, 0xAA4C),
    (0xAA4D, 0xAA4D), (0xAA50, 0xAA59), (0xAA5C, 0xAA5F), (0xAA60, 0xAA6F), (0xAA70, 0xAA70), (0xAA71, 0xAA76),
    (0xAA77, 0xAA79), (0xAA7A, 0xAA7A), (0xAA7B, 0xAA7B), (0xAA7C, 0xAA7C), (0xAA7D, 0xAA7D), (0xAA7E, 0xAAAF),
    (0xAAB0, 0xAAB0), (0xAAB1, 0xAAB1), (0xAAB2, 0xAAB4), (0xAAB5, 0xAAB6), (0xAAB7, 0xAAB8), (0xAAB9, 0xAABD),
    (0xAABE, 0xAABF), (0xAAC0, 0xAAC0), (0xAAC1, 0xAAC1), (0xAAC2, 0xAAC2), (0xAADB, 0xAADC), (0xAADD, 0xAADD),
    (0xAADE, 0xAADF), (0xAAE0, 0xAAEA), (0xAAEB, 0xAAEB), (0xAAEC, 0xAAED), (0xAAEE, 0xAAEF), (0xAAF0, 0xAAF1),
    (0xAAF2, 0xAAF2), (0xAAF3, 0xAAF4), (0xAAF5, 0xAAF5), (0xAAF6, 0xAAF6), (0xAB01, 0xAB06), (0xAB09, 0xAB0E),
    (0xAB11, 0xAB16), (0xAB20, 0xAB26), (0xAB28, 0xAB2E), (0xAB30, 0xAB5A), (0xAB5B, 0xAB5B), (0xAB5C, 0xAB5F),
    (0xAB60, 0xAB68), (0xAB69, 0xAB69), (0xAB6A, 0xAB6B), (0xAB70, 0xABBF), (0xABC0, 0xABE2), (0xABE3, 0xABE4),
    (0xABE5, 0xABE5), (0xABE6, 0xABE7), (0xABE8, 0xABE8), (0xABE9, 0xABEA), (0xABEB, 0xABEB), (0xABEC, 0xABEC),
    (0xABED, 0xABED), (0xABF0, 0xABF9), (0xAC00, 0xD7A3), (0xD7B0, 0xD7C6), (0xD7CB, 0xD7FB), (0xD800, 0xDFFF),
    (0xE000, 0xF8FF), (0xF900, 0xFA6D), (0xFA70, 0xFAD9), (0xFB00, 0xFB06), (0xFB13, 0xFB17), (0xFB1D, 0xFB1D),
    (0xFB1E, 0xFB1E), (0xFB1F, 0xFB28), (0xFB29, 0xFB29), (0xFB2A, 0xFB36), (0xFB38, 0xFB3C), (0xFB3E, 0xFB3E),
    (0xFB40, 0xFB41), (0xFB43, 0xFB44), (0xFB46, 0xFBB1), (0xFBB2, 0xFBC2), (0xFBD3, 0xFD3D), (0xFD3E, 0xFD3E),
    (0xFD3F, 0xFD3F), (0xFD40, 0xFD4F), (0xFD50, 0xFD8F), (0xFD92, 0xFDC7), (0xFDCF, 0xFDCF), (0xFDF0, 0xFDFB),
    (0xFDFC, 0xFDFC), (0xFDFD, 0xFDFF), (0xFE00, 0xFE0F), (0xFE10, 0xFE16), (0xFE17, 0xFE17), (0xFE18, 0xFE18),
    (0xFE19, 0xFE19), (0xFE20, 0xFE2F), (0xFE30, 0xFE30), (0xFE31, 0xFE32), (0xFE33, 0xFE34), (0xFE35, 0xFE35),
    (0xFE36, 0xFE36), (0xFE37, 0xFE37), (0xFE38, 0xFE38), (0xFE39, 0xFE39), (0xFE3A, 0xFE3A), (0xFE3B, 0xFE3B),
    (0xFE3C, 0xFE3C), (0xFE3D, 0xFE3D), (0xFE3E, 0xFE3E), (0xFE3F, 0xFE3F), (0xFE40, 0xFE40), (0xFE41, 0xFE41),
    (0xFE42, 0xFE42), (0xFE43, 0xFE43), (0xFE44, 0xFE44), (0xFE45, 0xFE46), (0xFE47, 0xFE47), (0xFE48, 0xFE48),
    (0xFE49, 0xFE4C), (0xFE4D, 0xFE4F), (0xFE50, 0xFE52), (0xFE54, 0xFE57), (0xFE58, 0xFE58), (0xFE59, 0xFE59),
    (0xFE5A, 0xFE5A), (0xFE5B, 0xFE5B), (0xFE5C, 0xFE5C), (0xFE5D, 0xFE5D), (0xFE5E, 0xFE5E), (0xFE5F, 0xFE61),
    (0xFE62, 0xFE62), (0xFE63, 0xFE63), (0xFE64, 0xFE66), (0xFE68, 0xFE68), (0xFE69, 0xFE69), (0xFE6A, 0xFE6B),
    (0xFE70, 0xFE74), (0xFE76, 0xFEFC), (0xFEFF, 0xFEFF), (0xFF01, 0xFF03), (0xFF04, 0xFF04), (0xFF05, 0xFF07),
    (0xFF08, 0xFF08), (0xFF09, 0xFF09), (0xFF0A, 0xFF0A), (0xFF0B, 0xFF0B), (0xFF0C, 0xFF0C), (0xFF0D, 0xFF0D),
    (0xFF0E, 0xFF0F), (0xFF10, 0xFF19), (0xFF1A, 0xFF1B), (0xFF1C, 0xFF1E), (0xFF1F, 0xFF20), (0xFF21, 0xFF3A),
    (0xFF3B, 0xFF3B), (0xFF3C, 0xFF3C), (0xFF3D, 0xFF3D), (0xFF3E, 0xFF3E), (0xFF3F, 0xFF3F), (0xFF40, 0xFF40),
    (0xFF41, 0xFF5A), (0xFF5B, 0xFF5B), (0xFF5C, 0xFF5C), (0xFF5D, 0xFF5D), (0xFF5E, 0xFF5E), (0xFF5F, 0xFF5F),
    (0xFF60, 0xFF60), (0xFF61, 0xFF61), (0xFF62, 0xFF62), (0xFF63, 0xFF63), (0xFF64, 0xFF65), (0xFF66, 0xFF6F),
    (0xFF70, 0xFF70), (0xFF71, 0xFF9D), (0xFF9E, 0xFF9F), (0xFFA0, 0xFFBE), (0xFFC2, 0xFFC7), (0xFFCA, 0xFFCF),
    (0xFFD2, 0xFFD7), (0xFFDA, 0xFFDC), (0xFFE0, 0xFFE1), (0xFFE2, 0xFFE2), (0xFFE3, 0xFFE3), (0xFFE4, 0xFFE4),
    (0xFFE5, 0xFFE6), (0xFFE8, 0xFFE8), (0xFFE9, 0xFFEC), (0xFFED, 0xFFEE), (0xFFF9, 0xFFFB), (0xFFFC, 0xFFFD),
    (0x10000, 0x1000B), (0x1000D, 0x10026), (0x10028, 0x1003A), (0x1003C, 0x1003D), (0x1003F, 0x1004D), (0x10050, 0x1005D),
    (0x10080, 0x100FA), (0x10100, 0x10102), (0x10107, 0x10133), (0x10137, 0x1013F), (0x10140, 0x10174), (0x10175, 0x10178),
    (0x10179, 0x10189), (0x1018A, 0x1018B), (0x1018C, 0x1018E), (0x10190, 0x1019C), (0x101A0, 0x101A0), (0x101D0, 0x101FC),
    (0x101FD, 0x101FD), (0x10280, 0x1029C), (0x102A0, 0x102D0), (0x102E0, 0x102E0), (0x102E1, 0x102FB), (0x10300, 0x1031F),
    (0x10320, 0x10323), (0x1032D, 0x10340), (0x10341, 0x10341), (0x10342, 0x10349), (0x1034A, 0x1034A), (0x10350, 0x10375),
    (0x10376, 0x1037A), (0x10380, 0x1039D), (0x1039F, 0x1039F), (0x103A0, 0x103C3), (0x103C8, 0x103CF), (0x103D0, 0x103D0),
    (0x103D1, 0x103D5), (0x10400, 0x10427), (0x10428, 0x1044F), (0x10450, 0x1049D), (0x104A0, 0x104A9), (0x104B0, 0x104D3),
    (0x104D8, 0x104FB), (0x10500, 0x10527), (0x10530, 0x10563), (0x1056F, 0x1056F), (0x10570, 0x1057A), (0x1057C, 0x1058A),
    (0x1058C, 0x10592), (0x10594, 0x10595), (0x10597, 0x105A1), (0x105A3, 0x105B1), (0x105B3, 0x105B9), (0x105BB, 0x105BC),
    (0x10600, 0x10736), (0x10740, 0x10755), (0x10760, 0x10767), (0x10780, 0x10785), (0x10787, 0x107B0), (0x107B2, 0x107BA),
    (0x10800, 0x10805), (0x10808, 0x10808), (0x1080A, 0x10835), (0x10837, 0x10838), (0x1083C, 0x1083C), (0x1083F, 0x10855),
    (0x10857, 0x10857), (0x10858, 0x1085F), (0x10860, 0x10876), (0x10877, 0x10878), (0x10879, 0x1087F), (0x10880, 0x1089E),
    (0x108A7, 0x108AF), (0x108E0, 0x108F2), (0x108F4, 0x108F5), (0x108FB, 0x108FF), (0x10900, 0x10915), (0x10916, 0x1091B),
    (0x1091F, 0x1091F), (0x10920, 0x10939), (0x1093F, 0x1093F), (0x10980, 0x109B7), (0x109BC, 0x109BD), (0x109BE, 0x109BF),
    (0x109C0, 0x109CF), (0x109D2, 0x109FF), (0x10A00, 0x10A00), (0x10A01, 0x10A03), (0x10A05, 0x10A06), (0x10A0C, 0x10A0F),
    (0x10A10, 0x10A13), (0x10A15, 0x10A17), (0x10A19, 0x10A35), (0x10A38, 0x10A3A), (0x10A3F, 0x10A3F), (0x10A40, 0x10A48),
    (0x10A50, 0x10A58), (0x10A60, 0x10A7C), (0x10A7D, 0x10A7E), (0x10A7F, 0x10A7F), (0x10A80, 0x10A9C), (0x10A9D, 0x10A9F),
    (0x10AC0, 0x10AC7), (0x10AC8, 0x10AC8), (0x10AC9, 0x10AE4), (0x10AE5, 0x10AE6), (0x10AEB, 0x10AEF), (0x10AF0, 0x10AF6),
    (0x10B00, 0x10B35), (0x10B39, 0x10B3F), (0x10B40, 0x10B55), (0x10B58, 0x10B5F), (0x10B60, 0x10B72), (0x10B78, 0x10B7F),
    (0x10B80, 0x10B91), (0x10B99, 0x10B9C), (0x10BA9, 0x10BAF), (0x10C00, 0x10C48), (0x10C80, 0x10CB2), (0x10CC0, 0x10CF2),
    (0x10CFA, 0x10CFF), (0x10D00, 0x10D23), (0x10D24, 0x10D27), (0x10D30, 0x10D39), (0x10E60, 0x10E7E), (0x10E80, 0x10EA9),
    (0x10EAB, 0x10EAC), (0x10EAD, 0x10EAD), (0x10EB0, 0x10EB1), (0x10F00, 0x10F1C), (0x10F1D, 0x10F26), (0x10F27, 0x10F27),
    (0x10F30, 0x10F45), (0x10F46, 0x10F50), (0x10F51, 0x10F54), (0x10F55, 0x10F59), (0x10F70, 0x10F81), (0x10F82, 0x10F85),
    (0x10F86, 0x10F89), (0x10FB0, 0x10FC4), (0x10FC5, 0x10FCB), (0x10FE0, 0x10FF6), (0x11000, 0x11000), (0x11001, 0x11001),
    (0x11002, 0x11002), (0x11003, 0x11037), (0x11038, 0x11046), (0x11047, 0x1104D), (0x11052, 0x11065), (0x11066, 0x1106F),
    (0x11070, 0x11070), (0x11071, 0x11072), (0x11073, 0x11074), (0x11075, 0x11075), (0x1107F, 0x11081), (0x11082, 0x11082),
    (0x11083, 0x110AF), (0x110B0, 0x110B2), (0x110B3, 0x110B6), (0x110B7, 0x110B8), (0x110B9, 0x110BA), (0x110BB, 0x110BC),
    (0x110BD, 0x110BD), (0x110BE, 0x110C1), (0x110C2, 0x110C2), (0x110CD, 0x110CD), (0x110D0, 0x110E8), (0x110F0, 0x110F9),
    (0x11100, 0x11102), (0x11103, 0x11126), (0x11127, 0x1112B), (0x1112C, 0x1112C), (0x1112D, 0x11134), (0x11136, 0x1113F),
    (0x11140, 0x11143), (0x11144, 0x11144), (0x11145, 0x11146), (0x11147, 0x11147), (0x11150, 0x11172), (0x11173, 0x11173),
    (0x11174, 0x11175), (0x11176, 0x11176), (0x11180, 0x11181), (0x11182, 0x11182), (0x11183, 0x111B2), (0x111B3, 0x111B5),
    (0x111B6, 0x111BE), (0x111BF, 0x111C0), (0x111C1, 0x111C4), (0x111C5, 0x111C8), (0x111C9, 0x111CC), (0x111CD, 0x111CD),
    (0x111CE, 0x111CE), (0x111CF, 0x111CF), (0x111D0, 0x111D9), (0x111DA, 0x111DA), (0x111DB, 0x111DB), (0x111DC, 0x111DC),
    (0x111DD, 0x111DF), (0x111E1, 0x111F4), (0x11200, 0x11211), (0x11213, 0x1122B), (0x1122C, 0x1122E), (0x1122F, 0x11231),
    (0x11232, 0x11233), (0x11234, 0x11234), (0x11235, 0x11235), (0x11236, 0x11237), (0x11238, 0x1123D), (0x1123E, 0x1123E),
    (0x11280, 0x11286), (0x11288, 0x11288), (0x1128A, 0x1128D), (0x1128F, 0x1129D), (0x1129F, 0x112A8), (0x112A9, 0x112A9),
    (0x112B0, 0x112DE), (0x112DF, 0x112DF), (0x112E0, 0x112E2), (0x112E3, 0x112EA), (0x112F0, 0x112F9), (0x11300, 0x11301),
    (0x11302, 0x11303), (0x11305, 0x1130C), (0x1130F, 0x11310), (0x11313, 0x11328), (0x1132A, 0x11330), (0x11332, 0x11333),
    (0x11335, 0x11339), (0x1133B, 0x1133C), (0x1133D, 0x1133D), (0x1133E, 0x1133F), (0x11340, 0x11340), (0x11341, 0x11344),
    (0x11347, 0x11348), (0x1134B, 0x1134D), (0x11350, 0x11350), (0x11357, 0x11357), (0x1135D, 0x11361), (0x11362, 0x11363),
    (0x11366, 0x1136C), (0x11370, 0x11374), (0x11400, 0x11434), (0x11435, 0x11437), (0x11438, 0x1143F), (0x11440, 0x11441),
    (0x11442, 0x11444), (0x11445, 0x11445), (0x11446, 0x11446), (0x11447, 0x1144A), (0x1144B, 0x1144F), (0x11450, 0x11459),
    (0x1145A, 0x1145B), (0x1145D, 0x1145D), (0x1145E, 0x1145E), (0x1145F, 0x11461), (0x11480, 0x114AF), (0x114B0, 0x114B2),
    (0x114B3, 0x114B8), (0x114B9, 0x114B9), (0x114BA, 0x114BA), (0x114BB, 0x114BE), (0x114BF, 0x114C0), (0x114C1, 0x114C1),
    (0x114C2, 0x114C3), (0x114C4, 0x114C5), (0x114C6, 0x114C6), (0x114C7, 0x114C7), (0x114D0, 0x114D9), (0x11580, 0x115AE),
    (0x115AF, 0x115B1), (0x115B2, 0x115B5), (0x115B8, 0x115BB), (0x115BC, 0x115BD), (0x115BE, 0x115BE), (0x115BF, 0x115C0),
    (0x115C1, 0x115D7), (0x115D8, 0x115DB), (0x115DC, 0x115DD), (0x11600, 0x1162F), (0x11630, 0x11632), (0x11633, 0x1163A),
    (0x1163B, 0x1163C), (0x1163D, 0x1163D), (0x1163E, 0x1163E), (0x1163F, 0x11640), (0x11641, 0x11643), (0x11644, 0x11644),
    (0x11650, 0x11659), (0x11660, 0x1166C), (0x11680, 0x116AA), (0x116AB, 0x116AB), (0x116AC, 0x116AC), (0x116AD, 0x116AD),
    (0x116AE, 0x116AF), (0x116B0, 0x116B5), (0x116B6, 0x116B6), (0x116B7, 0x116B7), (0x116B8, 0x116B8), (0x116B9, 0x116B9),
    (0x116C0, 0x116C9), (0x11700, 0x1171A), (0x1171D, 0x1171F), (0x11720, 0x11721), (0x11722, 0x11725), (0x11726, 0x11726),
    (0x11727, 0x1172B), (0x11730, 0x11739), (0x1173A, 0x1173B), (0x1173C, 0x1173E), (0x1173F, 0x1173F), (0x11740, 0x11746),
    (0x11800, 0x1182B), (0x1182C, 0x1182E), (0x1182F, 0x11837), (0x11838, 0x11838), (0x11839, 0x1183A), (0x1183B, 0x1183B),
    (0x118A0, 0x118BF), (0x118C0, 0x118DF), (0x118E0, 0x118E9), (0x118EA, 0x118F2), (0x118FF, 0x11906), (0x11909, 0x11909),
    (0x1190C, 0x11913), (0x11915, 0x11916), (0x11918, 0x1192F), (0x11930, 0x11935), (0x11937, 0x11938), (0x1193B, 0x1193C),
    (0x1193D, 0x1193D), (0x1193E, 0x1193E), (0x1193F, 0x1193F), (0x11940, 0x11940), (0x11941, 0x11941), (0x11942, 0x11942),
    (0x11943, 0x11943), (0x11944, 0x11946), (0x11950, 0x11959), (0x119A0, 0x119A7), (0x119AA, 0x119D0), (0x119D1, 0x119D3),
    (0x119D4, 0x119D7), (0x119DA, 0x119DB), (0x119DC, 0x119DF), (0x119E0, 0x119E0), (0x119E1, 0x119E1), (0x119E2, 0x119E2),
    (0x119E3, 0x119E3), (0x119E4, 0x119E4), (0x11A00, 0x11A00), (0x11A01, 0x11A0A), (0x11A0B, 0x11A32), (0x11A33, 0x11A38),
    (0x11A39, 0x11A39), (0x11A3A, 0x11A3A), (0x11A3B, 0x11A3E), (0x11A3F, 0x11A46), (0x11A47, 0x11A47), (0x11A50, 0x11A50),
    (0x11A51, 0x11A56), (0x11A57, 0x11A58), (0x11A59, 0x11A5B), (0x11A5C, 0x11A89), (0x11A8A, 0x11A96), (0x11A97, 0x11A97),
    (0x11A98, 0x11A99), (0x11A9A, 0x11A9C), (0x11A9D, 0x11A9D), (0x11A9E, 0x11AA2), (0x11AB0, 0x11AF8), (0x11C00, 0x11C08),
    (0x11C0A, 0x11C2E), (0x11C2F, 0x11C2F), (0x11C30, 0x11C36), (0x11C38, 0x11C3D), (0x11C3E, 0x11C3E), (0x11C3F, 0x11C3F),
    (0x11C40, 0x11C40), (0x11C41, 0x11C45), (0x11C50, 0x11C59), (0x11C5A, 0x11C6C), (0x11C70, 0x11C71), (0x11C72, 0x11C8F),
    (0x11C92, 0x11CA7), (0x11CA9, 0x11CA9), (0x11CAA, 0x11CB0), (0x11CB1, 0x11CB1), (0x11CB2, 0x11CB3), (0x11CB4, 0x11CB4),
    (0x11CB5, 0x11CB6), (0x11D00, 0x11D06), (0x11D08, 0x11D09), (0x11D0B, 0x11D30), (0x11D31, 0x11D36), (0x11D3A, 0x11D3A),
    (0x11D3C, 0x11D3D), (0x11D3F, 0x11D45), (0x11D46, 0x11D46), (0x11D47, 0x11D47), (0x11D50, 0x11D59), (0x11D60, 0x11D65),
    (0x11D67, 0x11D68), (0x11D6A, 0x11D89), (0x11D8A, 0x11D8E), (0x11D90, 0x11D91), (0x11D93, 0x11D94), (0x11D95, 0x11D95),
    (0x11D96, 0x11D96), (0x11D97, 0x11D97), (0x11D98, 0x11D98), (0x11DA0, 0x11DA9), (0x11EE0, 0x11EF2), (0x11EF3, 0x11EF4),
    (0x11EF5, 0x11EF6), (0x11EF7, 0x11EF8), (0x11FB0, 0x11FB0), (0x11FC0, 0x11FD4), (0x11FD5, 0x11FDC), (0x11FDD, 0x11FE0),
    (0x11FE1, 0x11FF1), (0x11FFF, 0x11FFF), (0x12000, 0x12399), (0x12400, 0x1246E), (0x12470, 0x12474), (0x12480, 0x12543),
    (0x12F90, 0x12FF0), (0x12FF1, 0x12FF2), (0x13000, 0x1342E), (0x13430, 0x13438), (0x14400, 0x14646), (0x16800, 0x16A38),
    (0x16A40, 0x16A5E), (0x16A60, 0x16A69), (0x16A6E, 0x16A6F), (0x16A70, 0x16ABE), (0x16AC0, 0x16AC9), (0x16AD0, 0x16AED),
    (0x16AF0, 0x16AF4), (0x16AF5, 0x16AF5), (0x16B00, 0x16B2F), (0x16B30, 0x16B36), (0x16B37, 0x16B3B), (0x16B3C, 0x16B3F),
    (0x16B40, 0x16B43), (0x16B44, 0x16B44), (0x16B45, 0x16B45), (0x16B50, 0x16B59),
];

const CATEGORY_BOUNDS_3: [(u32, u32); 270] = [
    (0x16B5B, 0x16B61), (0x16B63, 0x16B77), (0x16B7D, 0x16B8F), (0x16E40, 0x16E5F), (0x16E60, 0x16E7F), (0x16E80, 0x16E96),
    (0x16E97, 0x16E9A), (0x16F00, 0x16F4A), (0x16F4F, 0x16F4F), (0x16F50, 0x16F50), (0x16F51, 0x16F87), (0x16F8F, 0x16F92),
    (0x16F93, 0x16F9F), (0x16FE0, 0x16FE1), (0x16FE2, 0x16FE2), (0x16FE3, 0x16FE3), (0x16FE4, 0x16FE4), (0x16FF0, 0x16FF1),
    (0x17000, 0x187F7), (0x18800, 0x18CD5), (0x18D00, 0x18D08), (0x1AFF0, 0x1AFF3), (0x1AFF5, 0x1AFFB), (0x1AFFD, 0x1AFFE),
    (0x1B000, 0x1B122), (0x1B150, 0x1B152), (0x1B164, 0x1B167), (0x1B170, 0x1B2FB), (0x1BC00, 0x1BC6A), (0x1BC70, 0x1BC7C),
    (0x1BC80, 0x1BC88), (0x1BC90, 0x1BC99), (0x1BC9C, 0x1BC9C), (0x1BC9D, 0x1BC9E), (0x1BC9F, 0x1BC9F), (0x1BCA0, 0x1BCA3),
    (0x1CF00, 0x1CF2D), (0x1CF30, 0x1CF46), (0x1CF50, 0x1CFC3), (0x1D000, 0x1D0F5), (0x1D100, 0x1D126), (0x1D129, 0x1D164),
    (0x1D165, 0x1D166), (0x1D167, 0x1D169), (0x1D16A, 0x1D16C), (0x1D16D, 0x1D172), (0x1D173, 0x1D17A), (0x1D17B, 0x1D182),
    (0x1D183, 0x1D184), (0x1D185, 0x1D18B), (0x1D18C, 0x1D1A9), (0x1D1AA, 0x1D1AD), (0x1D1AE, 0x1D1EA), (0x1D200, 0x1D241),
    (0x1D242, 0x1D244), (0x1D245, 0x1D245), (0x1D2E0, 0x1D2F3), (0x1D300, 0x1D356), (0x1D360, 0x1D378), (0x1D400, 0x1D419),
    (0x1D41A, 0x1D433), (0x1D434, 0x1D44D), (0x1D44E, 0x1D454), (0x1D456, 0x1D467), (0x1D468, 0x1D481), (0x1D482, 0x1D49B),
    (0x1D49C, 0x1D49C), (0x1D49E, 0x1D49F), (0x1D4A2, 0x1D4A2), (0x1D4A5, 0x1D4A6), (0x1D4A9, 0x1D4AC), (0x1D4AE, 0x1D4B5),
    (0x1D4B6, 0x1D4B9), (0x1D4BB, 0x1D4BB), (0x1D4BD, 0x1D4C3), (0x1D4C5, 0x1D4CF), (0x1D4D0, 0x1D4E9), (0x1D4EA, 0x1D503),
    (0x1D504, 0x1D505), (0x1D507, 0x1D50A), (0x1D50D, 0x1D514), (0x1D516, 0x1D51C), (0x1D51E, 0x1D537), (0x1D538, 0x1D539),
    (0x1D53B, 0x1D53E), (0x1D540, 0x1D544), (0x1D546, 0x1D546), (0x1D54A, 0x1D550), (0x1D552, 0x1D56B), (0x1D56C, 0x1D585),
    (0x1D586, 0x1D59F), (0x1D5A0, 0x1D5B9), (0x1D5BA, 0x1D5D3), (0x1D5D4, 0x1D5ED), (0x1D5EE, 0x1D607), (0x1D608, 0x1D621),
    (0x1D622, 0x1D63B), (0x1D63C, 0x1D655), (0x1D656, 0x1D66F), (0x1D670, 0x1D689), (0x1D68A, 0x1D6A5), (0x1D6A8, 0x1D6C0),
    (0x1D6C1, 0x1D6C1), (0x1D6C2, 0x1D6DA), (0x1D6DB, 0x1D6DB), (0x1D6DC, 0x1D6E1), (0x1D6E2, 0x1D6FA), (0x1D6FB, 0x1D6FB),
    (0x1D6FC, 0x1D714), (0x1D715, 0x1D715), (0x1D716, 0x1D71B), (0x1D71C, 0x1D734), (0x1D735, 0x1D735), (0x1D736, 0x1D74E),
    (0x1D74F, 0x1D74F), (0x1D750, 0x1D755), (0x1D756, 0x1D76E), (0x1D76F, 0x1D76F), (0x1D770, 0x1D788), (0x1D789, 0x1D789),
    (0x1D78A, 0x1D78F), (0x1D790, 0x1D7A8), (0x1D7A9, 0x1D7A9), (0x1D7AA, 0x1D7C2), (0x1D7C3, 0x1D7C3), (0x1D7C4, 0x1D7C9),
    (0x1D7CA, 0x1D7CA), (0x1D7CB, 0x1D7CB), (0x1D7CE, 0x1D7FF), (0x1D800, 0x1D9FF), (0x1DA00, 0x1DA36), (0x1DA37, 0x1DA3A),
    (0x1DA3B, 0x1DA6C), (0x1DA6D, 0x1DA74), (0x1DA75, 0x1DA75), (0x1DA76, 0x1DA83), (0x1DA84, 0x1DA84), (0x1DA85, 0x1DA86),
    (0x1DA87, 0x1DA8B), (0x1DA9B, 0x1DA9F), (0x1DAA1, 0x1DAAF), (0x1DF00, 0x1DF09), (0x1DF0A, 0x1DF0A), (0x1DF0B, 0x1DF1E),
    (0x1E000, 0x1E006), (0x1E008, 0x1E018), (0x1E01B, 0x1E021), (0x1E023, 0x1E024), (0x1E026, 0x1E02A), (0x1E100, 0x1E12C),
    (0x1E130, 0x1E136), (0x1E137, 0x1E13D), (0x1E140, 0x1E149), (0x1E14E, 0x1E14E), (0x1E14F, 0x1E14F), (0x1E290, 0x1E2AD),
    (0x1E2AE, 0x1E2AE), (0x1E2C0, 0x1E2EB), (0x1E2EC, 0x1E2EF), (0x1E2F0, 0x1E2F9), (0x1E2FF, 0x1E2FF), (0x1E7E0, 0x1E7E6),
    (0x1E7E8, 0x1E7EB), (0x1E7ED, 0x1E7EE), (0x1E7F0, 0x1E7FE), (0x1E800, 0x1E8C4), (0x1E8C7, 0x1E8CF), (0x1E8D0, 0x1E8D6),
    (0x1E900, 0x1E921), (0x1E922, 0x1E943), (0x1E944, 0x1E94A), (0x1E94B, 0x1E94B), (0x1E950, 0x1E959), (0x1E95E, 0x1E95F),
    (0x1EC71, 0x1ECAB), (0x1ECAC, 0x1ECAC), (0x1ECAD, 0x1ECAF), (0x1ECB0, 0x1ECB0), (0x1ECB1, 0x1ECB4), (0x1ED01, 0x1ED2D),
    (0x1ED2E, 0x1ED2E), (0x1ED2F, 0x1ED3D), (0x1EE00, 0x1EE03), (0x1EE05, 0x1EE1F), (0x1EE21, 0x1EE22), (0x1EE24, 0x1EE24),
    (0x1EE27, 0x1EE27), (0x1EE29, 0x1EE32), (0x1EE34, 0x1EE37), (0x1EE39, 0x1EE39), (0x1EE3B, 0x1EE3B), (0x1EE42, 0x1EE42),
    (0x1EE47, 0x1EE47), (0x1EE49, 0x1EE49), (0x1EE4B, 0x1EE4B), (0x1EE4D, 0x1EE4F), (0x1EE51, 0x1EE52), (0x1EE54, 0x1EE54),
    (0x1EE57, 0x1EE57), (0x1EE59, 0x1EE59), (0x1EE5B, 0x1EE5B), (0x1EE5D, 0x1EE5D), (0x1EE5F, 0x1EE5F), (0x1EE61, 0x1EE62),
    (0x1EE64, 0x1EE64), (0x1EE67, 0x1EE6A), (0x1EE6C, 0x1EE72), (0x1EE74, 0x1EE77), (0x1EE79, 0x1EE7C), (0x1EE7E, 0x1EE7E),
    (0x1EE80, 0x1EE89), (0x1EE8B, 0x1EE9B), (0x1EEA1, 0x1EEA3), (0x1EEA5, 0x1EEA9), (0x1EEAB, 0x1EEBB), (0x1EEF0, 0x1EEF1),
    (0x1F000, 0x1F02B), (0x1F030, 0x1F093), (0x1F0A0, 0x1F0AE), (0x1F0B1, 0x1F0BF), (0x1F0C1, 0x1F0CF), (0x1F0D1, 0x1F0F5),
    (0x1F100, 0x1F10C), (0x1F10D, 0x1F1AD), (0x1F1E6, 0x1F202), (0x1F210, 0x1F23B), (0x1F240, 0x1F248), (0x1F250, 0x1F251),
    (0x1F260, 0x1F265), (0x1F300, 0x1F3FA), (0x1F3FB, 0x1F3FF), (0x1F400, 0x1F6D7), (0x1F6DD, 0x1F6EC), (0x1F6F0, 0x1F6FC),
    (0x1F700, 0x1F773), (0x1F780, 0x1F7D8), (0x1F7E0, 0x1F7EB), (0x1F7F0, 0x1F7F0), (0x1F800, 0x1F80B), (0x1F810, 0x1F847),
    (0x1F850, 0x1F859), (0x1F860, 0x1F887), (0x1F890, 0x1F8AD), (0x1F8B0, 0x1F8B1), (0x1F900, 0x1FA53), (0x1FA60, 0x1FA6D),
    (0x1FA70, 0x1FA74), (0x1FA78, 0x1FA7C), (0x1FA80, 0x1FA86), (0x1FA90, 0x1FAAC), (0x1FAB0, 0x1FABA), (0x1FAC0, 0x1FAC5),
    (0x1FAD0, 0x1FAD9), (0x1FAE0, 0x1FAE7), (0x1FAF0, 0x1FAF6), (0x1FB00, 0x1FB92), (0x1FB94, 0x1FBCA), (0x1FBF0, 0x1FBF9),
    (0x20000, 0x2A6DF), (0x2A700, 0x2B738), (0x2B740, 0x2B81D), (0x2B820, 0x2CEA1), (0x2CEB0, 0x2EBE0), (0x2F800, 0x2FA1D),
    (0x30000, 0x3134A), (0xE0001, 0xE0001), (0xE0020, 0xE007F), (0xE0100, 0xE01EF), (0xF0000, 0xFFFFD), (0x100000, 0x10FFFD),
];

/// Intervals of assigned code points, one per run of a single general category.
pub closed spec fn category_bounds_data() -> Seq<(u32, u32)> {
    Seq::empty() + CATEGORY_BOUNDS_0@ + CATEGORY_BOUNDS_1@ + CATEGORY_BOUNDS_2@ + CATEGORY_BOUNDS_3@
}

/// The entries of `category_bounds_data`, in one vector.
pub fn category_bounds() -> (r: Vec<(u32, u32)>)
    ensures
        r@ == category_bounds_data(),
{
    let mut v: Vec<(u32, u32)> = Vec::new();
    push_all(&mut v, &CATEGORY_BOUNDS_0);
    push_all(&mut v, &CATEGORY_BOUNDS_1);
    push_all(&mut v, &CATEGORY_BOUNDS_2);
    push_all(&mut v, &CATEGORY_BOUNDS_3);
    v
}

const CATEGORY_VALUES_0: [Gc; 1000] = [
    Gc::Cc, Gc::Zs, Gc::Po, Gc::Sc, Gc::Po, Gc::Ps, Gc::Pe, Gc::Po, Gc::Sm, Gc::Po, Gc::Pd, Gc::Po,
    Gc::Nd, Gc::Po, Gc::Sm, Gc::Po, Gc::Lu, Gc::Ps, Gc::Po, Gc::Pe, Gc::Sk, Gc::Pc, Gc::Sk, Gc::Ll,
    Gc::Ps, Gc::Sm, Gc::Pe, Gc::Sm, Gc::Cc, Gc::Zs, Gc::Po, Gc::Sc, Gc::So, Gc::Po, Gc::Sk, Gc::So,
    Gc::Lo, Gc::Pi, Gc::Sm, Gc::Cf, Gc::So, Gc::Sk, Gc::So, Gc::Sm, Gc::No, Gc::Sk, Gc::Ll, Gc::Po,
    Gc::Sk, Gc::No, Gc::Lo, Gc::Pf, Gc::No, Gc::Po, Gc::Lu, Gc::Sm, Gc::Lu, Gc::Ll, Gc::Sm, Gc::Ll,
    Gc::Lu, Gc::Ll, Gc::Lu, Gc::Ll, Gc::Lu, Gc::Ll, Gc::Lu, Gc::Ll, Gc::Lu, Gc::Ll, Gc::Lu, Gc::Ll,
    Gc::Lu, Gc::Ll, Gc::Lu, Gc::Ll, Gc::Lu, Gc::Ll, Gc::Lu, Gc::Ll, Gc::Lu, Gc::Ll, Gc::Lu, Gc::Ll,
    Gc::Lu, Gc::Ll, Gc::Lu, Gc::Ll, Gc::Lu, Gc::Ll, Gc::Lu, Gc::Ll, Gc::Lu, Gc::Ll, Gc::Lu, Gc::Ll,
    Gc::Lu, Gc::Ll, Gc::Lu, Gc::Ll, Gc::Lu, Gc::Ll, Gc::Lu, Gc::Ll, Gc::Lu, Gc::Ll, Gc::Lu, Gc::Ll,
    Gc::Lu, Gc::Ll, Gc::Lu, Gc::Ll, Gc::Lu, Gc::Ll, Gc::Lu, Gc::Ll, Gc::Lu, Gc::Ll, Gc::Lu, Gc::Ll,
    Gc::Lu, Gc::Ll, Gc::Lu, Gc::Ll, Gc::Lu, Gc::Ll, Gc::Lu, Gc::Ll, Gc::Lu, Gc::Ll, Gc::Lu, Gc::Ll,
    Gc::Lu, Gc::Ll, Gc::Lu, Gc::Ll, Gc::Lu, Gc::Ll, Gc::Lu, Gc::Ll, Gc::Lu, Gc::Ll, Gc::Lu, Gc::Ll,
    Gc::Lu, Gc::Ll, Gc::Lu, Gc::Ll, Gc::Lu, Gc::Ll, Gc::Lu, Gc::Ll, Gc::Lu, Gc::Ll, Gc::Lu, Gc::Ll,
    Gc::Lu, Gc::Ll, Gc::Lu, Gc::Ll, Gc::Lu, Gc::Ll, Gc::Lu, Gc::Ll, Gc::Lu, Gc::Ll, Gc::Lu, Gc::Ll,
    Gc::Lu, Gc::Ll, Gc::Lu, Gc::Ll, Gc::Lu, Gc::Ll, Gc::Lu, Gc::Ll, Gc::Lu, Gc::Ll, Gc::Lu, Gc::Ll,
    Gc::Lu, Gc::Ll, Gc::Lu, Gc::Ll, Gc::Lu, Gc::Ll, Gc::Lu, Gc::Ll, Gc::Lu, Gc::Ll, Gc::Lu, Gc::Ll,
    Gc::Lu, Gc::Ll, Gc::Lu, Gc::Ll, Gc::Lu, Gc::Ll, Gc::Lu, Gc::Ll, Gc::Lu, Gc::Ll, Gc::Lu, Gc::Ll,
    Gc::Lu, Gc::Ll, Gc::Lu, Gc::Ll, Gc::Lu, Gc::Ll, Gc::Lu, Gc::Ll, Gc::Lu, Gc::Ll, Gc::Lu, Gc::Ll,
    Gc::Lu, Gc::Ll, Gc::Lu, Gc::Ll, Gc::Lo, Gc::Lu, Gc::Ll, Gc::Lo, Gc::Lu, Gc::Lt, Gc::Ll, Gc::Lu,
    Gc::Lt, Gc::Ll, Gc::Lu, Gc::Lt, Gc::Ll, Gc::Lu, Gc::Ll, Gc::Lu, Gc::Ll, Gc::Lu, Gc::Ll, Gc::Lu,
    Gc::Ll, Gc::Lu, Gc::Ll, Gc::Lu, Gc::Ll, Gc::Lu, Gc::Ll, Gc::Lu, Gc::Ll, Gc::Lu, Gc::Ll, Gc::Lu,
    Gc::Ll, Gc::Lu, Gc::Ll, Gc::Lu, Gc::Ll, Gc::Lu, Gc::Ll, Gc::Lu, Gc::Ll, Gc::Lu, Gc::Ll, Gc::Lu,
    Gc::Ll, Gc::Lu, Gc::Ll, Gc::Lu, Gc::Lt, Gc::Ll, Gc::Lu, Gc::Ll, Gc::Lu, Gc::Ll, Gc::Lu, Gc::Ll,
    Gc::Lu, Gc::Ll, Gc::Lu, Gc::Ll, Gc::Lu, Gc::Ll, Gc::Lu, Gc::Ll, Gc::Lu, Gc::Ll, Gc::Lu, Gc::Ll,
    Gc::Lu, Gc::Ll, Gc::Lu, Gc::Ll, Gc::Lu, Gc::Ll, Gc::Lu, Gc::Ll, Gc::Lu, Gc::Ll, Gc::Lu, Gc::Ll,
    Gc::Lu, Gc::Ll, Gc::Lu, Gc::Ll, Gc::Lu, Gc::Ll, Gc::Lu, Gc::Ll, Gc::Lu, Gc::Ll, Gc::Lu, Gc::Ll,
    Gc::Lu, Gc::Ll, Gc::Lu, Gc::Ll, Gc::Lu, Gc::Ll, Gc::Lu, Gc::Ll, Gc::Lu, Gc::Ll, Gc::Lu, Gc::Ll,
    Gc::Lu, Gc::Ll, Gc::Lu, Gc::Ll, Gc::Lu, Gc::Ll, Gc::Lu, Gc::Ll, Gc::Lu, Gc::Ll, Gc::Lu, Gc::Ll,
    Gc::Lu, Gc::Ll, Gc::Lu, Gc::Ll, Gc::Lu, Gc::Ll, Gc::Lu, Gc::Ll, Gc::Lu, Gc::Ll, Gc::Lu, Gc::Ll,
    Gc::Lo, Gc::Ll, Gc::Lm, Gc::Sk, Gc::Lm, Gc::Sk, Gc::Lm, Gc::Sk, Gc::Lm, Gc::Sk, Gc::Lm, Gc::Sk,
    Gc::Mn, Gc::Lu, Gc::Ll, Gc::Lu, Gc::Ll, Gc::Lm, Gc::Sk, Gc::Lu, Gc::Ll, Gc::Lm, Gc::Ll, Gc::Po,
    Gc::Lu, Gc::Sk, Gc::Lu, Gc::Po, Gc::Lu, Gc::Lu, Gc::Lu, Gc::Ll, Gc::Lu, Gc::Lu, Gc::Ll, Gc::Lu,
    Gc::Ll, Gc::Lu, Gc::Ll, Gc::Lu, Gc::Ll, Gc::Lu, Gc::Ll, Gc::Lu, Gc::Ll, Gc::Lu, Gc::Ll, Gc::Lu,
    Gc::Ll, Gc::Lu, Gc::Ll, Gc::Lu, Gc::Ll, Gc::Lu, Gc::Ll, Gc::Lu, Gc::Ll, Gc::Lu, Gc::Ll, Gc::Lu,
    Gc::Ll, Gc::Lu, Gc::Ll, Gc::Lu, Gc::Ll, Gc::Sm, Gc::Lu, Gc::Ll, Gc::Lu, Gc::Ll, Gc::Lu, Gc::Ll,
    Gc::Lu, Gc::Ll, Gc::Lu, Gc::Ll, Gc::Lu, Gc::Ll, Gc::Lu, Gc::Ll, Gc::Lu, Gc::Ll, Gc::Lu, Gc::Ll,
    Gc::Lu, Gc::Ll, Gc::Lu, Gc::Ll, Gc::Lu, Gc::Ll, Gc::Lu, Gc::Ll, Gc::Lu, Gc::Ll, Gc::Lu, Gc::Ll,
    Gc::Lu, Gc::Ll, Gc::Lu, Gc::Ll, Gc::Lu, Gc::Ll, Gc::Lu, Gc::Ll, Gc::Lu, Gc::Ll, Gc::So, Gc::Mn,
    Gc::Me, Gc::Lu, Gc::Ll, Gc::Lu, Gc::Ll, Gc::Lu, Gc::Ll, Gc::Lu, Gc::Ll, Gc::Lu, Gc::Ll, Gc::Lu,
    Gc::Ll, Gc::Lu, Gc::Ll, Gc::Lu, Gc::Ll, Gc::Lu, Gc::Ll, Gc::Lu, Gc::Ll, Gc::Lu, Gc::Ll, Gc::Lu,
    Gc::Ll, Gc::Lu, Gc::Ll, Gc::Lu, Gc::Ll, Gc::Lu, Gc::Ll, Gc::Lu, Gc::Ll, Gc::Lu, Gc::Ll, Gc::Lu,
    Gc::Ll, Gc::Lu, Gc::Ll, Gc::Lu, Gc::Ll, Gc::Lu, Gc::Ll, Gc::Lu, Gc::Ll, Gc::Lu, Gc::Ll, Gc::Lu,
    Gc::Ll, Gc::Lu, Gc::Ll, Gc::Lu, Gc::Ll, Gc::Lu, Gc::Ll, Gc::Lu, Gc::Ll, Gc::Lu, Gc::Ll, Gc::Lu,
    Gc::Ll, Gc::Lu, Gc::Ll, Gc::Lu, Gc::Ll, Gc::Lu, Gc::Ll, Gc::Lu, Gc::Ll, Gc::Lu, Gc::Ll, Gc::Lu,
    Gc::Ll, Gc::Lu, Gc::Ll, Gc::Lu, Gc::Ll, Gc::Lu, Gc::Ll, Gc::Lu, Gc::Ll, Gc::Lu, Gc::Ll, Gc::Lu,
    Gc::Ll, Gc::Lu, Gc::Ll, Gc::Lu, Gc::Ll, Gc::Lu, Gc::Ll, Gc::Lu, Gc::Ll, Gc::Lu, Gc::Ll, Gc::Lu,
    Gc::Ll, Gc::Lu, Gc::Ll, Gc::Lu, Gc::Ll, Gc::Lu, Gc::Ll, Gc::Lu, Gc::Ll, Gc::Lu, Gc::Ll, Gc::Lu,
    Gc::Ll, Gc::Lu, Gc::Ll, Gc::Lu, Gc::Ll, Gc::Lu, Gc::Ll, Gc::Lu, Gc::Ll, Gc::Lu, Gc::Ll, Gc::Lu,
    Gc::Ll, Gc::Lu, Gc::Ll, Gc::Lu, Gc::Ll, Gc::Lu, Gc::Ll, Gc::Lu, Gc::Ll, Gc::Lu, Gc::Ll, Gc::Lu,
    Gc::Ll, Gc::Lu, Gc::Ll, Gc::Lu, Gc::Ll, Gc::Lu, Gc::Ll, Gc::Lu, Gc::Ll, Gc::Lu, Gc::Ll, Gc::Lu,
    Gc::Ll, Gc::Lu, Gc::Ll, Gc::Lu, Gc::Ll, Gc::Lu, Gc::Ll, Gc::Lu, Gc::Ll, Gc::Lu, Gc::Ll, Gc::Lu,
    Gc::Ll, Gc::Lu, Gc::Ll, Gc::Lu, Gc::Ll, Gc::Lu, Gc::Ll, Gc::Lu, Gc::Ll, Gc::Lu, Gc::Lm, Gc::Po,
    Gc::Ll, Gc::Po, Gc::Pd, Gc::So, Gc::Sc, Gc::Mn, Gc::Pd, Gc::Mn, Gc::Po, Gc::Mn, Gc::Po, Gc::Mn,
    Gc::Po, Gc::Mn, Gc::Lo, Gc::Lo, Gc::Po, Gc::Cf, Gc::Sm, Gc::Po, Gc::Sc, Gc::Po, Gc::So, Gc::Mn,
    Gc::Po, Gc::Cf, Gc::Po, Gc::Lo, Gc::Lm, Gc::Lo, Gc::Mn, Gc::Nd, Gc::Po, Gc::Lo, Gc::Mn, Gc::Lo,
    Gc::Po, Gc::Lo, Gc::Mn, Gc::Cf, Gc::So, Gc::Mn, Gc::Lm, Gc::Mn, Gc::So, Gc::Mn, Gc::Lo, Gc::Nd,
    Gc::Lo, Gc::So, Gc::Lo, Gc::Po, Gc::Cf, Gc::Lo, Gc::Mn, Gc::Lo, Gc::Mn, Gc::Lo, Gc::Mn, Gc::Lo,
    Gc::Nd, Gc::Lo, Gc::Mn, Gc::Lm, Gc::So, Gc::Po, Gc::Lm, Gc::Mn, Gc::Sc, Gc::Lo, Gc::Mn, Gc::Lm,
    Gc::Mn, Gc::Lm, Gc::Mn, Gc::Lm, Gc::Mn, Gc::Po, Gc::Lo, Gc::Mn, Gc::Po, Gc::Lo, Gc::Lo, Gc::Sk,
    Gc::Lo, Gc::Cf, Gc::Mn, Gc::Lo, Gc::Lm, Gc::Mn, Gc::Cf, Gc::Mn, Gc::Mc, Gc::Lo, Gc::Mn, Gc::Mc,
    Gc::Mn, Gc::Lo, Gc::Mc, Gc::Mn, Gc::Mc, Gc::Mn, Gc::Mc, Gc::Lo, Gc::Mn, Gc::Lo, Gc::Mn, Gc::Po,
    Gc::Nd, Gc::Po, Gc::Lm, Gc::Lo, Gc::Mn, Gc::Mc, Gc::Lo, Gc::Lo, Gc::Lo, Gc::Lo, Gc::Lo, Gc::Lo,
    Gc::Mn, Gc::Lo, Gc::Mc, Gc::Mn, Gc::Mc, Gc::Mc, Gc::Mn, Gc::Lo, Gc::Mc, Gc::Lo, Gc::Lo, Gc::Mn,
    Gc::Nd, Gc::Lo, Gc::Sc, Gc::No, Gc::So, Gc::Sc, Gc::Lo, Gc::Po, Gc::Mn, Gc::Mn, Gc::Mc, Gc::Lo,
    Gc::Lo, Gc::Lo, Gc::Lo, Gc::Lo, Gc::Lo, Gc::Lo, Gc::Mn, Gc::Mc, Gc::Mn, Gc::Mn, Gc::Mn, Gc::Mn,
    Gc::Lo, Gc::Lo, Gc::Nd, Gc::Mn, Gc::Lo, Gc::Mn, Gc::Po, Gc::Mn, Gc::Mc, Gc::Lo, Gc::Lo, Gc::Lo,
    Gc::Lo, Gc::Lo, Gc::Lo, Gc::Mn, Gc::Lo, Gc::Mc, Gc::Mn, Gc::Mn, Gc::Mc, Gc::Mc, Gc::Mn, Gc::Lo,
    Gc::Lo, Gc::Mn, Gc::Nd, Gc::Po, Gc::Sc, Gc::Lo, Gc::Mn, Gc::Mn, Gc::Mc, Gc::Lo, Gc::Lo, Gc::Lo,
    Gc::Lo, Gc::Lo, Gc::Lo, Gc::Mn, Gc::Lo, Gc::Mc, Gc::Mn, Gc::Mc, Gc::Mn, Gc::Mc, Gc::Mc, Gc::Mn,
    Gc::Mn, Gc::Mc, Gc::Lo, Gc::Lo, Gc::Mn, Gc::Nd, Gc::So, Gc::Lo, Gc::No, Gc::Mn, Gc::Lo, Gc::Lo,
    Gc::Lo, Gc::Lo, Gc::Lo, Gc::Lo, Gc::Lo, Gc::Lo, Gc::Lo, Gc::Lo, Gc::Mc, Gc::Mn, Gc::Mc, Gc::Mc,
    Gc::Mc, Gc::Mn, Gc::Lo, Gc::Mc, Gc::Nd, Gc::No, Gc::So, Gc::Sc, Gc::So, Gc::Mn, Gc::Mc, Gc::Mn,
    Gc::Lo, Gc::Lo, Gc::Lo, Gc::Lo, Gc::Mn, Gc::Lo, Gc::Mn, Gc::Mc, Gc::Mn, Gc::Mn, Gc::Mn, Gc::Lo,
    Gc::Lo, Gc::Lo, Gc::Mn, Gc::Nd, Gc::Po, Gc::No, Gc::So, Gc::Lo, Gc::Mn, Gc::Mc, Gc::Po, Gc::Lo,
    Gc::Lo, Gc::Lo, Gc::Lo, Gc::Lo, Gc::Mn, Gc::Lo, Gc::Mc, Gc::Mn, Gc::Mc, Gc::Mn, Gc::Mc, Gc::Mc,
    Gc::Mn, Gc::Mc, Gc::Lo, Gc::Lo, Gc::Mn, Gc::Nd, Gc::Lo, Gc::Mn, Gc::Mc, Gc::Lo, Gc::Lo, Gc::Lo,
    Gc::Mn, Gc::Lo, Gc::Mc, Gc::Mn, Gc::Mc, Gc::Mc, Gc::Mn, Gc::Lo, Gc::So, Gc::Lo, Gc::Mc, Gc::No,
    Gc::Lo, Gc::Mn, Gc::Nd, Gc::No, Gc::So, Gc::Lo, Gc::Mn, Gc::Mc, Gc::Lo, Gc::Lo, Gc::Lo, Gc::Lo,
    Gc::Lo, Gc::Mn, Gc::Mc, Gc::Mn, Gc::Mn, Gc::Mc, Gc::Nd, Gc::Mc, Gc::Po, Gc::Lo, Gc::Mn, Gc::Lo,
    Gc::Mn, Gc::Sc, Gc::Lo, Gc::Lm, Gc::Mn, Gc::Po, Gc::Nd, Gc::Po, Gc::Lo, Gc::Lo, Gc::Lo, Gc::Lo,
    Gc::Lo, Gc::Lo, Gc::Mn, Gc::Lo, Gc::Mn, Gc::Lo, Gc::Lo, Gc::Lm, Gc::Mn, Gc::Nd, Gc::Lo, Gc::Lo,
    Gc::So, Gc::Po, Gc::So, Gc::Po, Gc::So, Gc::Mn, Gc::So, Gc::Nd, Gc::No, Gc::So, Gc::Mn, Gc::So,
    Gc::Mn, Gc::So, Gc::Mn, Gc::Ps, Gc::Pe, Gc::Ps, Gc::Pe, Gc::Mc, Gc::Lo, Gc::Lo, Gc::Mn, Gc::Mc,
    Gc::Mn, Gc::Po, Gc::Mn, Gc::Lo,
];

const CATEGORY_VALUES_1: [Gc; 1000] = [
    Gc::Mn, Gc::Mn, Gc::So, Gc::Mn, Gc::So, Gc::So, Gc::Po, Gc::So, Gc::Po, Gc::Lo, Gc::Mc, Gc::Mn,
    Gc::Mc, Gc::Mn, Gc::Mc, Gc::Mn, Gc::Mc, Gc::Mn, Gc::Lo, Gc::Nd, Gc::Po, Gc::Lo, Gc::Mc, Gc::Mn,
    Gc::Lo, Gc::Mn, Gc::Lo, Gc::Mc, Gc::Lo, Gc::Mc, Gc::Lo, Gc::Mn, Gc::Lo, Gc::Mn, Gc::Mc, Gc::Mn,
    Gc::Mc, Gc::Mn, Gc::Lo, Gc::Mc, Gc::Nd, Gc::Mc, Gc::Mn, Gc::So, Gc::Lu, Gc::Lu, Gc::Lu, Gc::Ll,
    Gc::Po, Gc::Lm, Gc::Ll, Gc::Lo, Gc::Lo, Gc::Lo, Gc::Lo, Gc::Lo, Gc::Lo, Gc::Lo, Gc::Lo, Gc::Lo,
    Gc::Lo, Gc::Lo, Gc::Lo, Gc::Lo, Gc::Lo, Gc::Lo, Gc::Lo, Gc::Mn, Gc::Po, Gc::No, Gc::Lo, Gc::So,
    Gc::Lu, Gc::Ll, Gc::Pd, Gc::Lo, Gc::So, Gc::Po, Gc::Lo, Gc::Zs, Gc::Lo, Gc::Ps, Gc::Pe, Gc::Lo,
    Gc::Po, Gc::Nl, Gc::Lo, Gc::Lo, Gc::Mn, Gc::Mc, Gc::Lo, Gc::Mn, Gc::Mc, Gc::Po, Gc::Lo, Gc::Mn,
    Gc::Lo, Gc::Lo, Gc::Mn, Gc::Lo, Gc::Mn, Gc::Mc, Gc::Mn, Gc::Mc, Gc::Mn, Gc::Mc, Gc::Mn, Gc::Po,
    Gc::Lm, Gc::Po, Gc::Sc, Gc::Lo, Gc::Mn, Gc::Nd, Gc::No, Gc::Po, Gc::Pd, Gc::Po, Gc::Mn, Gc::Cf,
    Gc::Mn, Gc::Nd, Gc::Lo, Gc::Lm, Gc::Lo, Gc::Lo, Gc::Mn, Gc::Lo, Gc::Mn, Gc::Lo, Gc::Lo, Gc::Lo,
    Gc::Mn, Gc::Mc, Gc::Mn, Gc::Mc, Gc::Mc, Gc::Mn, Gc::Mc, Gc::Mn, Gc::So, Gc::Po, Gc::Nd, Gc::Lo,
    Gc::Lo, Gc::Lo, Gc::Lo, Gc::Nd, Gc::No, Gc::So, Gc::Lo, Gc::Mn, Gc::Mc, Gc::Mn, Gc::Po, Gc::Lo,
    Gc::Mc, Gc::Mn, Gc::Mc, Gc::Mn, Gc::Mn, Gc::Mc, Gc::Mn, Gc::Mc, Gc::Mn, Gc::Mc, Gc::Mn, Gc::Mn,
    Gc::Nd, Gc::Nd, Gc::Po, Gc::Lm, Gc::Po, Gc::Mn, Gc::Me, Gc::Mn, Gc::Mn, Gc::Mc, Gc::Lo, Gc::Mn,
    Gc::Mc, Gc::Mn, Gc::Mc, Gc::Mn, Gc::Mc, Gc::Mn, Gc::Mc, Gc::Lo, Gc::Nd, Gc::Po, Gc::So, Gc::Mn,
    Gc::So, Gc::Po, Gc::Mn, Gc::Mc, Gc::Lo, Gc::Mc, Gc::Mn, Gc::Mc, Gc::Mn, Gc::Mc, Gc::Mn, Gc::Lo,
    Gc::Nd, Gc::Lo, Gc::Mn, Gc::Mc, Gc::Mn, Gc::Mc, Gc::Mn, Gc::Mc, Gc::Mn, Gc::Mc, Gc::Po, Gc::Lo,
    Gc::Mc, Gc::Mn, Gc::Mc, Gc::Mn, Gc::Po, Gc::Nd, Gc::Lo, Gc::Nd, Gc::Lo, Gc::Lm, Gc::Po, Gc::Ll,
    Gc::Lu, Gc::Lu, Gc::Po, Gc::Mn, Gc::Po, Gc::Mn, Gc::Mc, Gc::Mn, Gc::Lo, Gc::Mn, Gc::Lo, Gc::Mn,
    Gc::Lo, Gc::Mc, Gc::Mn, Gc::Lo, Gc::Ll, Gc::Lm, Gc::Ll, Gc::Lm, Gc::Ll, Gc::Lm, Gc::Mn, Gc::Lu,
    Gc::Ll, Gc::Lu, Gc::Ll, Gc::Lu, Gc::Ll, Gc::Lu, Gc::Ll, Gc::Lu, Gc::Ll, Gc::Lu, Gc::Ll, Gc::Lu,
    Gc::Ll, Gc::Lu, Gc::Ll, Gc::Lu, Gc::Ll, Gc::Lu, Gc::Ll, Gc::Lu, Gc::Ll, Gc::Lu, Gc::Ll, Gc::Lu,
    Gc::Ll, Gc::Lu, Gc::Ll, Gc::Lu, Gc::Ll, Gc::Lu, Gc::Ll, Gc::Lu, Gc::Ll, Gc::Lu, Gc::Ll, Gc::Lu,
    Gc::Ll, Gc::Lu, Gc::Ll, Gc::Lu, Gc::Ll, Gc::Lu, Gc::Ll, Gc::Lu, Gc::Ll, Gc::Lu, Gc::Ll, Gc::Lu,
    Gc::Ll, Gc::Lu, Gc::Ll, Gc::Lu, Gc::Ll, Gc::Lu, Gc::Ll, Gc::Lu, Gc::Ll, Gc::Lu, Gc::Ll, Gc::Lu,
    Gc::Ll, Gc::Lu, Gc::Ll, Gc::Lu, Gc::Ll, Gc::Lu, Gc::Ll, Gc::Lu, Gc::Ll, Gc::Lu, Gc::Ll, Gc::Lu,
    Gc::Ll, Gc::Lu, Gc::Ll, Gc::Lu, Gc::Ll, Gc::Lu, Gc::Ll, Gc::Lu, Gc::Ll, Gc::Lu, Gc::Ll, Gc::Lu,
    Gc::Ll, Gc::Lu, Gc::Ll, Gc::Lu, Gc::Ll, Gc::Lu, Gc::Ll, Gc::Lu, Gc::Ll, Gc::Lu, Gc::Ll, Gc::Lu,
    Gc::Ll, Gc::Lu, Gc::Ll, Gc::Lu, Gc::Ll, Gc::Lu, Gc::Ll, Gc::Lu, Gc::Ll, Gc::Lu, Gc::Ll, Gc::Lu,
    Gc::Ll, Gc::Lu, Gc::Ll, Gc::Lu, Gc::Ll, Gc::Lu, Gc::Ll, Gc::Lu, Gc::Ll, Gc::Lu, Gc::Ll, Gc::Lu,
    Gc::Ll, Gc::Lu, Gc::Ll, Gc::Lu, Gc::Ll, Gc::Lu, Gc::Ll, Gc::Lu, Gc::Ll, Gc::Lu, Gc::Ll, Gc::Lu,
    Gc::Ll, Gc::Lu, Gc::Ll, Gc::Lu, Gc::Ll, Gc::Lu, Gc::Ll, Gc::Lu, Gc::Ll, Gc::Lu, Gc::Ll, Gc::Lu,
    Gc::Ll, Gc::Lu, Gc::Ll, Gc::Lu, Gc::Ll, Gc::Lu, Gc::Ll, Gc::Lu, Gc::Ll, Gc::Lu, Gc::Ll, Gc::Lu,
    Gc::Ll, Gc::Lu, Gc::Ll, Gc::Lu, Gc::Ll, Gc::Lu, Gc::Ll, Gc::Lu, Gc::Ll, Gc::Lu, Gc::Ll, Gc::Lu,
    Gc::Ll, Gc::Lu, Gc::Ll, Gc::Lu, Gc::Ll, Gc::Lu, Gc::Ll, Gc::Lu, Gc::Ll, Gc::Lu, Gc::Ll, Gc::Lu,
    Gc::Ll, Gc::Lu, Gc::Ll, Gc::Lu, Gc::Ll, Gc::Lu, Gc::Ll, Gc::Lu, Gc::Ll, Gc::Lu, Gc::Ll, Gc::Lu,
    Gc::Ll, Gc::Lu, Gc::Ll, Gc::Lu, Gc::Ll, Gc::Lu, Gc::Ll, Gc::Lu, Gc::Ll, Gc::Lu, Gc::Ll, Gc::Lu,
    Gc::Ll, Gc::Lu, Gc::Ll, Gc::Lu, Gc::Ll, Gc::Lu, Gc::Ll, Gc::Lu, Gc::Ll, Gc::Lu, Gc::Ll, Gc::Lu,
    Gc::Ll, Gc::Lu, Gc::Ll, Gc::Lu, Gc::Ll, Gc::Lu, Gc::Ll, Gc::Lu, Gc::Ll, Gc::Lu, Gc::Ll, Gc::Lu,
    Gc::Ll, Gc::Lu, Gc::Ll, Gc::Lu, Gc::Ll, Gc::Lu, Gc::Ll, Gc::Lu, Gc::Ll, Gc::Lu, Gc::Ll, Gc::Lu,
    Gc::Ll, Gc::Lu, Gc::Ll, Gc::Lu, Gc::Ll, Gc::Lu, Gc::Ll, Gc::Lu, Gc::Ll, Gc::Lu, Gc::Ll, Gc::Lu,
    Gc::Ll, Gc::Lu, Gc::Ll, Gc::Lu, Gc::Ll, Gc::Lu, Gc::Lu, Gc::Lu, Gc::Lu, Gc::Ll, Gc::Lu, Gc::Ll,
    Gc::Ll, Gc::Lt, Gc::Ll, Gc::Lt, Gc::Ll, Gc::Lt, Gc::Ll, Gc::Ll, Gc::Lu, Gc::Lt, Gc::Sk, Gc::Ll,
    Gc::Sk, Gc::Ll, Gc::Ll, Gc::Lu, Gc::Lt, Gc::Sk, Gc::Ll, Gc::Ll, Gc::Lu, Gc::Sk, Gc::Ll, Gc::Lu,
    Gc::Sk, Gc::Ll, Gc::Ll, Gc::Lu, Gc::Lt, Gc::Sk, Gc::Zs, Gc::Cf, Gc::Pd, Gc::Po, Gc::Pi, Gc::Pf,
    Gc::Ps, Gc::Pi, Gc::Pf, Gc::Ps, Gc::Pi, Gc::Po, Gc::Zl, Gc::Zp, Gc::Cf, Gc::Zs, Gc::Po, Gc::Pi,
    Gc::Pf, Gc::Po, Gc::Pc, Gc::Po, Gc::Sm, Gc::Ps, Gc::Pe, Gc::Po, Gc::Sm, Gc::Po, Gc::Pc, Gc::Po,
    Gc::Zs, Gc::Cf, Gc::Cf, Gc::No, Gc::Lm, Gc::No, Gc::Sm, Gc::Ps, Gc::Pe, Gc::Lm, Gc::No, Gc::Sm,
    Gc::Ps, Gc::Pe, Gc::Lm, Gc::Sc, Gc::Mn, Gc::Me, Gc::Mn, Gc::Me, Gc::Mn, Gc::So, Gc::Lu, Gc::So,
    Gc::Lu, Gc::So, Gc::Ll, Gc::Lu, Gc::Ll, Gc::Lu, Gc::Ll, Gc::So, Gc::Lu, Gc::So, Gc::Sm, Gc::Lu,
    Gc::So, Gc::Lu, Gc::So, Gc::Lu, Gc::So, Gc::Lu, Gc::So, Gc::Lu, Gc::So, Gc::Ll, Gc::Lu, Gc::Ll,
    Gc::Lo, Gc::Ll, Gc::So, Gc::Ll, Gc::Lu, Gc::Sm, Gc::Lu, Gc::Ll, Gc::So, Gc::Sm, Gc::So, Gc::Ll,
    Gc::So, Gc::No, Gc::Nl, Gc::Lu, Gc::Ll, Gc::Nl, Gc::No, Gc::So, Gc::Sm, Gc::So, Gc::Sm, Gc::So,
    Gc::Sm, Gc::So, Gc::Sm, Gc::So, Gc::Sm, Gc::So, Gc::Sm, Gc::So, Gc::Sm, Gc::So, Gc::Sm, Gc::So,
    Gc::Sm, Gc::So, Gc::Sm, Gc::So, Gc::Ps, Gc::Pe, Gc::Ps, Gc::Pe, Gc::So, Gc::Sm, Gc::So, Gc::Ps,
    Gc::Pe, Gc::So, Gc::Sm, Gc::So, Gc::Sm, Gc::So, Gc::Sm, Gc::So, Gc::So, Gc::No, Gc::So, Gc::No,
    Gc::So, Gc::Sm, Gc::So, Gc::Sm, Gc::So, Gc::Sm, Gc::So, Gc::Sm, Gc::So, Gc::Ps, Gc::Pe, Gc::Ps,
    Gc::Pe, Gc::Ps, Gc::Pe, Gc::Ps, Gc::Pe, Gc::Ps, Gc::Pe, Gc::Ps, Gc::Pe, Gc::Ps, Gc::Pe, Gc::No,
    Gc::So, Gc::Sm, Gc::Ps, Gc::Pe, Gc::Sm, Gc::Ps, Gc::Pe, Gc::Ps, Gc::Pe, Gc::Ps, Gc::Pe, Gc::Ps,
    Gc::Pe, Gc::Ps, Gc::Pe, Gc::Sm, Gc::So, Gc::Sm, Gc::Ps, Gc::Pe, Gc::Ps, Gc::Pe, Gc::Ps, Gc::Pe,
    Gc::Ps, Gc::Pe, Gc::Ps, Gc::Pe, Gc::Ps, Gc::Pe, Gc::Ps, Gc::Pe, Gc::Ps, Gc::Pe, Gc::Ps, Gc::Pe,
    Gc::Ps, Gc::Pe, Gc::Ps, Gc::Pe, Gc::Sm, Gc::Ps, Gc::Pe, Gc::Ps, Gc::Pe, Gc::Sm, Gc::Ps, Gc::Pe,
    Gc::Sm, Gc::So, Gc::Sm, Gc::So, Gc::Sm, Gc::So, Gc::So, Gc::So, Gc::Lu, Gc::Ll, Gc::Lu, Gc::Ll,
    Gc::Lu, Gc::Ll, Gc::Lu, Gc::Ll, Gc::Lu, Gc::Ll, Gc::Lu, Gc::Ll, Gc::Lu, Gc::Ll, Gc::Lu, Gc::Ll,
    Gc::Lu, Gc::Ll, Gc::Lm, Gc::Lu, Gc::Ll, Gc::Lu, Gc::Ll, Gc::Lu, Gc::Ll, Gc::Lu, Gc::Ll, Gc::Lu,
    Gc::Ll, Gc::Lu, Gc::Ll, Gc::Lu, Gc::Ll, Gc::Lu, Gc::Ll, Gc::Lu, Gc::Ll, Gc::Lu, Gc::Ll, Gc::Lu,
    Gc::Ll, Gc::Lu, Gc::Ll, Gc::Lu, Gc::Ll, Gc::Lu, Gc::Ll, Gc::Lu, Gc::Ll, Gc::Lu, Gc::Ll, Gc::Lu,
    Gc::Ll, Gc::Lu, Gc::Ll, Gc::Lu, Gc::Ll, Gc::Lu, Gc::Ll, Gc::Lu, Gc::Ll, Gc::Lu, Gc::Ll, Gc::Lu,
    Gc::Ll, Gc::Lu, Gc::Ll, Gc::Lu, Gc::Ll, Gc::Lu, Gc::Ll, Gc::Lu, Gc::Ll, Gc::Lu, Gc::Ll, Gc::Lu,
    Gc::Ll, Gc::Lu, Gc::Ll, Gc::Lu, Gc::Ll, Gc::Lu, Gc::Ll, Gc::Lu, Gc::Ll, Gc::Lu, Gc::Ll, Gc::Lu,
    Gc::Ll, Gc::Lu, Gc::Ll, Gc::Lu, Gc::Ll, Gc::Lu, Gc::Ll, Gc::Lu, Gc::Ll, Gc::Lu, Gc::Ll, Gc::Lu,
    Gc::Ll, Gc::Lu, Gc::Ll, Gc::Lu, Gc::Ll, Gc::Lu, Gc::Ll, Gc::Lu, Gc::Ll, Gc::Lu, Gc::Ll, Gc::Lu,
    Gc::Ll, Gc::Lu, Gc::Ll, Gc::Lu, Gc::Ll, Gc::Lu, Gc::Ll, Gc::So, Gc::Lu, Gc::Ll, Gc::Lu, Gc::Ll,
    Gc::Mn, Gc::Lu, Gc::Ll, Gc::Po, Gc::No, Gc::Po, Gc::Ll, Gc::Ll, Gc::Ll, Gc::Lo, Gc::Lm, Gc::Po,
    Gc::Mn, Gc::Lo, Gc::Lo, Gc::Lo, Gc::Lo, Gc::Lo, Gc::Lo, Gc::Lo, Gc::Lo, Gc::Lo, Gc::Mn, Gc::Po,
    Gc::Pi, Gc::Pf, Gc::Pi, Gc::Pf, Gc::Po, Gc::Pi, Gc::Pf, Gc::Po, Gc::Pi, Gc::Pf, Gc::Po, Gc::Pd,
    Gc::Po, Gc::Pd, Gc::Po, Gc::Pi, Gc::Pf, Gc::Po, Gc::Pi, Gc::Pf, Gc::Ps, Gc::Pe, Gc::Ps, Gc::Pe,
    Gc::Ps, Gc::Pe, Gc::Ps, Gc::Pe, Gc::Po, Gc::Lm, Gc::Po, Gc::Pd, Gc::Po, Gc::Pd, Gc::Po, Gc::Ps,
    Gc::Po, Gc::So, Gc::Po, Gc::Ps, Gc::Pe, Gc::Ps, Gc::Pe, Gc::Ps, Gc::Pe, Gc::Ps, Gc::Pe, Gc::Pd,
    Gc::So, Gc::So, Gc::So, Gc::So, Gc::Zs, Gc::Po, Gc::So, Gc::Lm, Gc::Lo, Gc::Nl, Gc::Ps, Gc::Pe,
    Gc::Ps, Gc::Pe, Gc::Ps, Gc::Pe, Gc::Ps, Gc::Pe, Gc::Ps, Gc::Pe, Gc::So, Gc::Ps, Gc::Pe, Gc::Ps,
    Gc::Pe, Gc::Ps, Gc::Pe, Gc::Ps, Gc::Pe, Gc::Pd, Gc::Ps, Gc::Pe, Gc::So, Gc::Nl, Gc::Mn, Gc::Mc,
    Gc::Pd, Gc::Lm, Gc::So, Gc::Nl,
];

const CATEGORY_VALUES_2: [Gc; 1000] = [
    Gc::Lm, Gc::Lo, Gc::Po, Gc::So, Gc::Lo, Gc::Mn, Gc::Sk, Gc::Lm, Gc::Lo, Gc::Pd, Gc::Lo, Gc::Po,
    Gc::Lm, Gc::Lo, Gc::Lo, Gc::Lo, Gc::So, Gc::No, Gc::So, Gc::Lo, Gc::So, Gc::Lo, Gc::So, Gc::No,
    Gc::So, Gc::No, Gc::So, Gc::No, Gc::So, Gc::No, Gc::So, Gc::No, Gc::So, Gc::Lo, Gc::So, Gc::Lo,
    Gc::Lm, Gc::Lo, Gc::So, Gc::Lo, Gc::Lm, Gc::Po, Gc::Lo, Gc::Lm, Gc::Po, Gc::Lo, Gc::Nd, Gc::Lo,
    Gc::Lu, Gc::Ll, Gc::Lu, Gc::Ll, Gc::Lu, Gc::Ll, Gc::Lu, Gc::Ll, Gc::Lu, Gc::Ll, Gc::Lu, Gc::Ll,
    Gc::Lu, Gc::Ll, Gc::Lu, Gc::Ll, Gc::Lu, Gc::Ll, Gc::Lu, Gc::Ll, Gc::Lu, Gc::Ll, Gc::Lu, Gc::Ll,
    Gc::Lu, Gc::Ll, Gc::Lu, Gc::Ll, Gc::Lu, Gc::Ll, Gc::Lu, Gc::Ll, Gc::Lu, Gc::Ll, Gc::Lu, Gc::Ll,
    Gc::Lu, Gc::Ll, Gc::Lu, Gc::Ll, Gc::Lu, Gc::Ll, Gc::Lu, Gc::Ll, Gc::Lu, Gc::Ll, Gc::Lo, Gc::Mn,
    Gc::Me, Gc::Po, Gc::Mn, Gc::Po, Gc::Lm, Gc::Lu, Gc::Ll, Gc::Lu, Gc::Ll, Gc::Lu, Gc::Ll, Gc::Lu,
    Gc::Ll, Gc::Lu, Gc::Ll, Gc::Lu, Gc::Ll, Gc::Lu, Gc::Ll, Gc::Lu, Gc::Ll, Gc::Lu, Gc::Ll, Gc::Lu,
    Gc::Ll, Gc::Lu, Gc::Ll, Gc::Lu, Gc::Ll, Gc::Lu, Gc::Ll, Gc::Lu, Gc::Ll, Gc::Lm, Gc::Mn, Gc::Lo,
    Gc::Nl, Gc::Mn, Gc::Po, Gc::Sk, Gc::Lm, Gc::Sk, Gc::Lu, Gc::Ll, Gc::Lu, Gc::Ll, Gc::Lu, Gc::Ll,
    Gc::Lu, Gc::Ll, Gc::Lu, Gc::Ll, Gc::Lu, Gc::Ll, Gc::Lu, Gc::Ll, Gc::Lu, Gc::Ll, Gc::Lu, Gc::Ll,
    Gc::Lu, Gc::Ll, Gc::Lu, Gc::Ll, Gc::Lu, Gc::Ll, Gc::Lu, Gc::Ll, Gc::Lu, Gc::Ll, Gc::Lu, Gc::Ll,
    Gc::Lu, Gc::Ll, Gc::Lu, Gc::Ll, Gc::Lu, Gc::Ll, Gc::Lu, Gc::Ll, Gc::Lu, Gc::Ll, Gc::Lu, Gc::Ll,
    Gc::Lu, Gc::Ll, Gc::Lu, Gc::Ll, Gc::Lu, Gc::Ll, Gc::Lu, Gc::Ll, Gc::Lu, Gc::Ll, Gc::Lu, Gc::Ll,
    Gc::Lu, Gc::Ll, Gc::Lu, Gc::Ll, Gc::Lu, Gc::Ll, Gc::Lu, Gc::Ll, Gc::Lu, Gc::Ll, Gc::Lu, Gc::Ll,
    Gc::Lu, Gc::Ll, Gc::Lu, Gc::Ll, Gc::Lu, Gc::Ll, Gc::Lu, Gc::Ll, Gc::Lu, Gc::Ll, Gc::Lm, Gc::Ll,
    Gc::Lu, Gc::Ll, Gc::Lu, Gc::Ll, Gc::Lu, Gc::Ll, Gc::Lu, Gc::Ll, Gc::Lu, Gc::Ll, Gc::Lu, Gc::Ll,
    Gc::Lu, Gc::Ll, Gc::Lm, Gc::Sk, Gc::Lu, Gc::Ll, Gc::Lu, Gc::Ll, Gc::Lo, Gc::Lu, Gc::Ll, Gc::Lu,
    Gc::Ll, Gc::Lu, Gc::Ll, Gc::Lu, Gc::Ll, Gc::Lu, Gc::Ll, Gc::Lu, Gc::Ll, Gc::Lu, Gc::Ll, Gc::Lu,
    Gc::Ll, Gc::Lu, Gc::Ll, Gc::Lu, Gc::Ll, Gc::Lu, Gc::Ll, Gc::Lu, Gc::Ll, Gc::Lu, Gc::Ll, Gc::Lu,
    Gc::Ll, Gc::Lu, Gc::Ll, Gc::Lu, Gc::Ll, Gc::Lu, Gc::Ll, Gc::Lu, Gc::Ll, Gc::Lu, Gc::Ll, Gc::Lu,
    Gc::Ll, Gc::Lu, Gc::Ll, Gc::Lu, Gc::Ll, Gc::Lu, Gc::Ll, Gc::Lu, Gc::Ll, Gc::Ll, Gc::Ll, Gc::Lu,
    Gc::Ll, Gc::Lu, Gc::Ll, Gc::Lm, Gc::Lu, Gc::Ll, Gc::Lo, Gc::Lm, Gc::Ll, Gc::Lo, Gc::Mn, Gc::Lo,
    Gc::Mn, Gc::Lo, Gc::Mn, Gc::Lo, Gc::Mc, Gc::Mn, Gc::Mc, Gc::So, Gc::Mn, Gc::No, Gc::So, Gc::Sc,
    Gc::So, Gc::Lo, Gc::Po, Gc::Mc, Gc::Lo, Gc::Mc, Gc::Mn, Gc::Po, Gc::Nd, Gc::Mn, Gc::Lo, Gc::Po,
    Gc::Lo, Gc::Po, Gc::Lo, Gc::Mn, Gc::Nd, Gc::Lo, Gc::Mn, Gc::Po, Gc::Lo, Gc::Mn, Gc::Mc, Gc::Po,
    Gc::Lo, Gc::Mn, Gc::Mc, Gc::Lo, Gc::Mn, Gc::Mc, Gc::Mn, Gc::Mc, Gc::Mn, Gc::Mc, Gc::Po, Gc::Lm,
    Gc::Nd, Gc::Po, Gc::Lo, Gc::Mn, Gc::Lm, Gc::Lo, Gc::Nd, Gc::Lo, Gc::Lo, Gc::Mn, Gc::Mc, Gc::Mn,
    Gc::Mc, Gc::Mn, Gc::Lo, Gc::Mn, Gc::Lo, Gc::Mn, Gc::Mc, Gc::Nd, Gc::Po, Gc::Lo, Gc::Lm, Gc::Lo,
    Gc::So, Gc::Lo, Gc::Mc, Gc::Mn, Gc::Mc, Gc::Lo, Gc::Mn, Gc::Lo, Gc::Mn, Gc::Lo, Gc::Mn, Gc::Lo,
    Gc::Mn, Gc::Lo, Gc::Mn, Gc::Lo, Gc::Lo, Gc::Lm, Gc::Po, Gc::Lo, Gc::Mc, Gc::Mn, Gc::Mc, Gc::Po,
    Gc::Lo, Gc::Lm, Gc::Mc, Gc::Mn, Gc::Lo, Gc::Lo, Gc::Lo, Gc::Lo, Gc::Lo, Gc::Ll, Gc::Sk, Gc::Lm,
    Gc::Ll, Gc::Lm, Gc::Sk, Gc::Ll, Gc::Lo, Gc::Mc, Gc::Mn, Gc::Mc, Gc::Mn, Gc::Mc, Gc::Po, Gc::Mc,
    Gc::Mn, Gc::Nd, Gc::Lo, Gc::Lo, Gc::Lo, Gc::Cs, Gc::Co, Gc::Lo, Gc::Lo, Gc::Ll, Gc::Ll, Gc::Lo,
    Gc::Mn, Gc::Lo, Gc::Sm, Gc::Lo, Gc::Lo, Gc::Lo, Gc::Lo, Gc::Lo, Gc::Lo, Gc::Sk, Gc::Lo, Gc::Pe,
    Gc::Ps, Gc::So, Gc::Lo, Gc::Lo, Gc::So, Gc::Lo, Gc::Sc, Gc::So, Gc::Mn, Gc::Po, Gc::Ps, Gc::Pe,
    Gc::Po, Gc::Mn, Gc::Po, Gc::Pd, Gc::Pc, Gc::Ps, Gc::Pe, Gc::Ps, Gc::Pe, Gc::Ps, Gc::Pe, Gc::Ps,
    Gc::Pe, Gc::Ps, Gc::Pe, Gc::Ps, Gc::Pe, Gc::Ps, Gc::Pe, Gc::Ps, Gc::Pe, Gc::Po, Gc::Ps, Gc::Pe,
    Gc::Po, Gc::Pc, Gc::Po, Gc::Po, Gc::Pd, Gc::Ps, Gc::Pe, Gc::Ps, Gc::Pe, Gc::Ps, Gc::Pe, Gc::Po,
    Gc::Sm, Gc::Pd, Gc::Sm, Gc::Po, Gc::Sc, Gc::Po, Gc::Lo, Gc::Lo, Gc::Cf, Gc::Po, Gc::Sc, Gc::Po,
    Gc::Ps, Gc::Pe, Gc::Po, Gc::Sm, Gc::Po, Gc::Pd, Gc::Po, Gc::Nd, Gc::Po, Gc::Sm, Gc::Po, Gc::Lu,
    Gc::Ps, Gc::Po, Gc::Pe, Gc::Sk, Gc::Pc, Gc::Sk, Gc::Ll, Gc::Ps, Gc::Sm, Gc::Pe, Gc::Sm, Gc::Ps,
    Gc::Pe, Gc::Po, Gc::Ps, Gc::Pe, Gc::Po, Gc::Lo, Gc::Lm, Gc::Lo, Gc::Lm, Gc::Lo, Gc::Lo, Gc::Lo,
    Gc::Lo, Gc::Lo, Gc::Sc, Gc::Sm, Gc::Sk, Gc::So, Gc::Sc, Gc::So, Gc::Sm, Gc::So, Gc::Cf, Gc::So,
    Gc::Lo, Gc::Lo, Gc::Lo, Gc::Lo, Gc::Lo, Gc::Lo, Gc::Lo, Gc::Po, Gc::No, Gc::So, Gc::Nl, Gc::No,
    Gc::So, Gc::No, Gc::So, Gc::So, Gc::So, Gc::So, Gc::Mn, Gc::Lo, Gc::Lo, Gc::Mn, Gc::No, Gc::Lo,
    Gc::No, Gc::Lo, Gc::Nl, Gc::Lo, Gc::Nl, Gc::Lo, Gc::Mn, Gc::Lo, Gc::Po, Gc::Lo, Gc::Lo, Gc::Po,
    Gc::Nl, Gc::Lu, Gc::Ll, Gc::Lo, Gc::Nd, Gc::Lu, Gc::Ll, Gc::Lo, Gc::Lo, Gc::Po, Gc::Lu, Gc::Lu,
    Gc::Lu, Gc::Lu, Gc::Ll, Gc::Ll, Gc::Ll, Gc::Ll, Gc::Lo, Gc::Lo, Gc::Lo, Gc::Lm, Gc::Lm, Gc::Lm,
    Gc::Lo, Gc::Lo, Gc::Lo, Gc::Lo, Gc::Lo, Gc::Lo, Gc::Po, Gc::No, Gc::Lo, Gc::So, Gc::No, Gc::Lo,
    Gc::No, Gc::Lo, Gc::Lo, Gc::No, Gc::Lo, Gc::No, Gc::Po, Gc::Lo, Gc::Po, Gc::Lo, Gc::No, Gc::Lo,
    Gc::No, Gc::No, Gc::Lo, Gc::Mn, Gc::Mn, Gc::Mn, Gc::Lo, Gc::Lo, Gc::Lo, Gc::Mn, Gc::Mn, Gc::No,
    Gc::Po, Gc::Lo, Gc::No, Gc::Po, Gc::Lo, Gc::No, Gc::Lo, Gc::So, Gc::Lo, Gc::Mn, Gc::No, Gc::Po,
    Gc::Lo, Gc::Po, Gc::Lo, Gc::No, Gc::Lo, Gc::No, Gc::Lo, Gc::Po, Gc::No, Gc::Lo, Gc::Lu, Gc::Ll,
    Gc::No, Gc::Lo, Gc::Mn, Gc::Nd, Gc::No, Gc::Lo, Gc::Mn, Gc::Pd, Gc::Lo, Gc::Lo, Gc::No, Gc::Lo,
    Gc::Lo, Gc::Mn, Gc::No, Gc::Po, Gc::Lo, Gc::Mn, Gc::Po, Gc::Lo, Gc::No, Gc::Lo, Gc::Mc, Gc::Mn,
    Gc::Mc, Gc::Lo, Gc::Mn, Gc::Po, Gc::No, Gc::Nd, Gc::Mn, Gc::Lo, Gc::Mn, Gc::Lo, Gc::Mn, Gc::Mc,
    Gc::Lo, Gc::Mc, Gc::Mn, Gc::Mc, Gc::Mn, Gc::Po, Gc::Cf, Gc::Po, Gc::Mn, Gc::Cf, Gc::Lo, Gc::Nd,
    Gc::Mn, Gc::Lo, Gc::Mn, Gc::Mc, Gc::Mn, Gc::Nd, Gc::Po, Gc::Lo, Gc::Mc, Gc::Lo, Gc::Lo, Gc::Mn,
    Gc::Po, Gc::Lo, Gc::Mn, Gc::Mc, Gc::Lo, Gc::Mc, Gc::Mn, Gc::Mc, Gc::Lo, Gc::Po, Gc::Mn, Gc::Po,
    Gc::Mc, Gc::Mn, Gc::Nd, Gc::Lo, Gc::Po, Gc::Lo, Gc::Po, Gc::No, Gc::Lo, Gc::Lo, Gc::Mc, Gc::Mn,
    Gc::Mc, Gc::Mn, Gc::Mc, Gc::Mn, Gc::Po, Gc::Mn, Gc::Lo, Gc::Lo, Gc::Lo, Gc::Lo, Gc::Lo, Gc::Po,
    Gc::Lo, Gc::Mn, Gc::Mc, Gc::Mn, Gc::Nd, Gc::Mn, Gc::Mc, Gc::Lo, Gc::Lo, Gc::Lo, Gc::Lo, Gc::Lo,
    Gc::Lo, Gc::Mn, Gc::Lo, Gc::Mc, Gc::Mn, Gc::Mc, Gc::Mc, Gc::Mc, Gc::Lo, Gc::Mc, Gc::Lo, Gc::Mc,
    Gc::Mn, Gc::Mn, Gc::Lo, Gc::Mc, Gc::Mn, Gc::Mc, Gc::Mn, Gc::Mc, Gc::Mn, Gc::Lo, Gc::Po, Gc::Nd,
    Gc::Po, Gc::Po, Gc::Mn, Gc::Lo, Gc::Lo, Gc::Mc, Gc::Mn, Gc::Mc, Gc::Mn, Gc::Mc, Gc::Mn, Gc::Mc,
    Gc::Mn, Gc::Lo, Gc::Po, Gc::Lo, Gc::Nd, Gc::Lo, Gc::Mc, Gc::Mn, Gc::Mc, Gc::Mn, Gc::Mc, Gc::Mn,
    Gc::Po, Gc::Lo, Gc::Mn, Gc::Lo, Gc::Mc, Gc::Mn, Gc::Mc, Gc::Mn, Gc::Mc, Gc::Mn, Gc::Po, Gc::Lo,
    Gc::Nd, Gc::Po, Gc::Lo, Gc::Mn, Gc::Mc, Gc::Mn, Gc::Mc, Gc::Mn, Gc::Mc, Gc::Mn, Gc::Lo, Gc::Po,
    Gc::Nd, Gc::Lo, Gc::Mn, Gc::Mc, Gc::Mn, Gc::Mc, Gc::Mn, Gc::Nd, Gc::No, Gc::Po, Gc::So, Gc::Lo,
    Gc::Lo, Gc::Mc, Gc::Mn, Gc::Mc, Gc::Mn, Gc::Po, Gc::Lu, Gc::Ll, Gc::Nd, Gc::No, Gc::Lo, Gc::Lo,
    Gc::Lo, Gc::Lo, Gc::Lo, Gc::Mc, Gc::Mc, Gc::Mn, Gc::Mc, Gc::Mn, Gc::Lo, Gc::Mc, Gc::Lo, Gc::Mc,
    Gc::Mn, Gc::Po, Gc::Nd, Gc::Lo, Gc::Lo, Gc::Mc, Gc::Mn, Gc::Mn, Gc::Mc, Gc::Mn, Gc::Lo, Gc::Po,
    Gc::Lo, Gc::Mc, Gc::Lo, Gc::Mn, Gc::Lo, Gc::Mn, Gc::Mc, Gc::Lo, Gc::Mn, Gc::Po, Gc::Mn, Gc::Lo,
    Gc::Mn, Gc::Mc, Gc::Mn, Gc::Lo, Gc::Mn, Gc::Mc, Gc::Mn, Gc::Po, Gc::Lo, Gc::Po, Gc::Lo, Gc::Lo,
    Gc::Lo, Gc::Mc, Gc::Mn, Gc::Mn, Gc::Mc, Gc::Mn, Gc::Lo, Gc::Po, Gc::Nd, Gc::No, Gc::Po, Gc::Lo,
    Gc::Mn, Gc::Mc, Gc::Mn, Gc::Mc, Gc::Mn, Gc::Mc, Gc::Mn, Gc::Lo, Gc::Lo, Gc::Lo, Gc::Mn, Gc::Mn,
    Gc::Mn, Gc::Mn, Gc::Lo, Gc::Mn, Gc::Nd, Gc::Lo, Gc::Lo, Gc::Lo, Gc::Mc, Gc::Mn, Gc::Mc, Gc::Mn,
    Gc::Mc, Gc::Mn, Gc::Lo, Gc::Nd, Gc::Lo, Gc::Mn, Gc::Mc, Gc::Po, Gc::Lo, Gc::No, Gc::So, Gc::Sc,
    Gc::So, Gc::Po, Gc::Lo, Gc::Nl, Gc::Po, Gc::Lo, Gc::Lo, Gc::Po, Gc::Lo, Gc::Cf, Gc::Lo, Gc::Lo,
    Gc::Lo, Gc::Nd, Gc::Po, Gc::Lo, Gc::Nd, Gc::Lo, Gc::Mn, Gc::Po, Gc::Lo, Gc::Mn, Gc::Po, Gc::So,
    Gc::Lm, Gc::Po, Gc::So, Gc::Nd,
];

const CATEGORY_VALUES_3: [Gc; 270] = [
    Gc::No, Gc::Lo, Gc::Lo, Gc::Lu, Gc::Ll, Gc::No, Gc::Po, Gc::Lo, Gc::Mn, Gc::Lo, Gc::Mc, Gc::Mn,
    Gc::Lm, Gc::Lm, Gc::Po, Gc::Lm, Gc::Mn, Gc::Mc, Gc::Lo, Gc::Lo, Gc::Lo, Gc::Lm, Gc::Lm, Gc::Lm,
    Gc::Lo, Gc::Lo, Gc::Lo, Gc::Lo, Gc::Lo, Gc::Lo, Gc::Lo, Gc::Lo, Gc::So, Gc::Mn, Gc::Po, Gc::Cf,
    Gc::Mn, Gc::Mn, Gc::So, Gc::So, Gc::So, Gc::So, Gc::Mc, Gc::Mn, Gc::So, Gc::Mc, Gc::Cf, Gc::Mn,
    Gc::So, Gc::Mn, Gc::So, Gc::Mn, Gc::So, Gc::So, Gc::Mn, Gc::So, Gc::No, Gc::So, Gc::No, Gc::Lu,
    Gc::Ll, Gc::Lu, Gc::Ll, Gc::Ll, Gc::Lu, Gc::Ll, Gc::Lu, Gc::Lu, Gc::Lu, Gc::Lu, Gc::Lu, Gc::Lu,
    Gc::Ll, Gc::Ll, Gc::Ll, Gc::Ll, Gc::Lu, Gc::Ll, Gc::Lu, Gc::Lu, Gc::Lu, Gc::Lu, Gc::Ll, Gc::Lu,
    Gc::Lu, Gc::Lu, Gc::Lu, Gc::Lu, Gc::Ll, Gc::Lu, Gc::Ll, Gc::Lu, Gc::Ll, Gc::Lu, Gc::Ll, Gc::Lu,
    Gc::Ll, Gc::Lu, Gc::Ll, Gc::Lu, Gc::Ll, Gc::Lu, Gc::Sm, Gc::Ll, Gc::Sm, Gc::Ll, Gc::Lu, Gc::Sm,
    Gc::Ll, Gc::Sm, Gc::Ll, Gc::Lu, Gc::Sm, Gc::Ll, Gc::Sm, Gc::Ll, Gc::Lu, Gc::Sm, Gc::Ll, Gc::Sm,
    Gc::Ll, Gc::Lu, Gc::Sm, Gc::Ll, Gc::Sm, Gc::Ll, Gc::Lu, Gc::Ll, Gc::Nd, Gc::So, Gc::Mn, Gc::So,
    Gc::Mn, Gc::So, Gc::Mn, Gc::So, Gc::Mn, Gc::So, Gc::Po, Gc::Mn, Gc::Mn, Gc::Ll, Gc::Lo, Gc::Ll,
    Gc::Mn, Gc::Mn, Gc::Mn, Gc::Mn, Gc::Mn, Gc::Lo, Gc::Mn, Gc::Lm, Gc::Nd, Gc::Lo, Gc::So, Gc::Lo,
    Gc::Mn, Gc::Lo, Gc::Mn, Gc::Nd, Gc::Sc, Gc::Lo, Gc::Lo, Gc::Lo, Gc::Lo, Gc::Lo, Gc::No, Gc::Mn,
    Gc::Lu, Gc::Ll, Gc::Mn, Gc::Lm, Gc::Nd, Gc::Po, Gc::No, Gc::So, Gc::No, Gc::Sc, Gc::No, Gc::No,
    Gc::So, Gc::No, Gc::Lo, Gc::Lo, Gc::Lo, Gc::Lo, Gc::Lo, Gc::Lo, Gc::Lo, Gc::Lo, Gc::Lo, Gc::Lo,
    Gc::Lo, Gc::Lo, Gc::Lo, Gc::Lo, Gc::Lo, Gc::Lo, Gc::Lo, Gc::Lo, Gc::Lo, Gc::Lo, Gc::Lo, Gc::Lo,
    Gc::Lo, Gc::Lo, Gc::Lo, Gc::Lo, Gc::Lo, Gc::Lo, Gc::Lo, Gc::Lo, Gc::Lo, Gc::Lo, Gc::Lo, Gc::Sm,
    Gc::So, Gc::So, Gc::So, Gc::So, Gc::So, Gc::So, Gc::No, Gc::So, Gc::So, Gc::So, Gc::So, Gc::So,
    Gc::So, Gc::So, Gc::Sk, Gc::So, Gc::So, Gc::So, Gc::So, Gc::So, Gc::So, Gc::So, Gc::So, Gc::So,
    Gc::So, Gc::So, Gc::So, Gc::So, Gc::So, Gc::So, Gc::So, Gc::So, Gc::So, Gc::So, Gc::So, Gc::So,
    Gc::So, Gc::So, Gc::So, Gc::So, Gc::So, Gc::Nd, Gc::Lo, Gc::Lo, Gc::Lo, Gc::Lo, Gc::Lo, Gc::Lo,
    Gc::Lo, Gc::Cf, Gc::Cf, Gc::Mn, Gc::Co, Gc::Co,
];

/// The general category of each interval of `category_bounds_data`.
pub closed spec fn category_values_data() -> Seq<Gc> {
    Seq::empty() + CATEGORY_VALUES_0@ + CATEGORY_VALUES_1@ + CATEGORY_VALUES_2@ + CATEGORY_VALUES_3@
}

/// The entries of `category_values_data`, in one vector.
pub fn category_values() -> (r: Vec<Gc>)
    ensures
        r@ == category_values_data(),
{
    let mut v: Vec<Gc> = Vec::new();
    push_all(&mut v, &CATEGORY_VALUES_0);
    push_all(&mut v, &CATEGORY_VALUES_1);
    push_all(&mut v, &CATEGORY_VALUES_2);
    push_all(&mut v, &CATEGORY_VALUES_3);
    v
}

const COMBINING_KEYS_0: [u32; 912] = [
    0x0300, 0x0301, 0x0302, 0x0303, 0x0304, 0x0305, 0x0306, 0x0307, 0x0308, 0x0309,
    0x030A, 0x030B, 0x030C, 0x030D, 0x030E, 0x030F, 0x0310, 0x0311, 0x0312, 0x0313,
    0x0314, 0x0315, 0x0316, 0x0317, 0x0318, 0x0319, 0x031A, 0x031B, 0x031C, 0x031D,
    0x031E, 0x031F, 0x0320, 0x0321, 0x0322, 0x0323, 0x0324, 0x0325, 0x0326, 0x0327,
    0x0328, 0x0329, 0x032A, 0x032B, 0x032C, 0x032D, 0x032E, 0x032F, 0x0330, 0x0331,
    0x0332, 0x0333, 0x0334, 0x0335, 0x0336, 0x0337, 0x0338, 0x0339, 0x033A, 0x033B,
    0x033C, 0x033D, 0x033E, 0x033F, 0x0340, 0x0341, 0x0342, 0x0343, 0x0344, 0x0345,
    0x0346, 0x0347, 0x0348, 0x0349, 0x034A, 0x034B, 0x034C, 0x034D, 0x034E, 0x0350,
    0x0351, 0x0352, 0x0353, 0x0354, 0x0355, 0x0356, 0x0357, 0x0358, 0x0359, 0x035A,
    0x035B, 0x035C, 0x035D, 0x035E, 0x035F, 0x0360, 0x0361, 0x0362, 0x0363, 0x0364,
    0x0365, 0x0366, 0x0367, 0x0368, 0x0369, 0x036A, 0x036B, 0x036C, 0x036D, 0x036E,
    0x036F, 0x0483, 0x0484, 0x0485, 0x0486, 0x0487, 0x0591, 0x0592, 0x0593, 0x0594,
    0x0595, 0x0596, 0x0597, 0x0598, 0x0599, 0x059A, 0x059B, 0x059C, 0x059D, 0x059E,
    0x059F, 0x05A0, 0x05A1, 0x05A2, 0x05A3, 0x05A4, 0x05A5, 0x05A6, 0x05A7, 0x05A8,
    0x05A9, 0x05AA, 0x05AB, 0x05AC, 0x05AD, 0x05AE, 0x05AF, 0x05B0, 0x05B1, 0x05B2,
    0x05B3, 0x05B4, 0x05B5, 0x05B6, 0x05B7, 0x05B8, 0x05B9, 0x05BA, 0x05BB, 0x05BC,
    0x05BD, 0x05BF, 0x05C1, 0x05C2, 0x05C4, 0x05C5, 0x05C7, 0x0610, 0x0611, 0x0612,
    0x0613, 0x0614, 0x0615, 0x0616, 0x0617, 0x0618, 0x0619, 0x061A, 0x064B, 0x064C,
    0x064D, 0x064E, 0x064F, 0x0650, 0x0651, 0x0652, 0x0653, 0x0654, 0x0655, 0x0656,
    0x0657, 0x0658, 0x0659, 0x065A, 0x065B, 0x065C, 0x065D, 0x065E, 0x065F, 0x0670,
    0x06D6, 0x06D7, 0x06D8, 0x06D9, 0x06DA, 0x06DB, 0x06DC, 0x06DF, 0x06E0, 0x06E1,
    0x06E2, 0x06E3, 0x06E4, 0x06E7, 0x06E8, 0x06EA, 0x06EB, 0x06EC, 0x06ED, 0x0711,
    0x0730, 0x0731, 0x0732, 0x0733, 0x0734, 0x0735, 0x0736, 0x0737, 0x0738, 0x0739,
    0x073A, 0x073B, 0x073C, 0x073D, 0x073E, 0x073F, 0x0740, 0x0741, 0x0742, 0x0743,
    0x0744, 0x0745, 0x0746, 0x0747, 0x0748, 0x0749, 0x074A, 0x07EB, 0x07EC, 0x07ED,
    0x07EE, 0x07EF, 0x07F0, 0x07F1, 0x07F2, 0x07F3, 0x07FD, 0x0816, 0x0817, 0x0818,
    0x0819, 0x081B, 0x081C, 0x081D, 0x081E, 0x081F, 0x0820, 0x0821, 0x0822, 0x0823,
    0x0825, 0x0826, 0x0827, 0x0829, 0x082A, 0x082B, 0x082C, 0x082D, 0x0859, 0x085A,
    0x085B, 0x0898, 0x0899, 0x089A, 0x089B, 0x089C, 0x089D, 0x089E, 0x089F, 0x08CA,
    0x08CB, 0x08CC, 0x08CD, 0x08CE, 0x08CF, 0x08D0, 0x08D1, 0x08D2, 0x08D3, 0x08D4,
    0x08D5, 0x08D6, 0x08D7, 0x08D8, 0x08D9, 0x08DA, 0x08DB, 0x08DC, 0x08DD, 0x08DE,
    0x08DF, 0x08E0, 0x08E1, 0x08E3, 0x08E4, 0x08E5, 0x08E6, 0x08E7, 0x08E8, 0x08E9,
    0x08EA, 0x08EB, 0x08EC, 0x08ED, 0x08EE, 0x08EF, 0x08F0, 0x08F1, 0x08F2, 0x08F3,
    0x08F4, 0x08F5, 0x08F6, 0x08F7, 0x08F8, 0x08F9, 0x08FA, 0x08FB, 0x08FC, 0x08FD,
    0x08FE, 0x08FF, 0x093C, 0x094D, 0x0951, 0x0952, 0x0953, 0x0954, 0x09BC, 0x09CD,
    0x09FE, 0x0A3C, 0x0A4D, 0x0ABC, 0x0ACD, 0x0B3C, 0x0B4D, 0x0BCD, 0x0C3C, 0x0C4D,
    0x0C55, 0x0C56, 0x0CBC, 0x0CCD, 0x0D3B, 0x0D3C, 0x0D4D, 0x0DCA, 0x0E38, 0x0E39,
    0x0E3A, 0x0E48, 0x0E49, 0x0E4A, 0x0E4B, 0x0EB8, 0x0EB9, 0x0EBA, 0x0EC8, 0x0EC9,
    0x0ECA, 0x0ECB, 0x0F18, 0x0F19, 0x0F35, 0x0F37, 0x0F39, 0x0F71, 0x0F72, 0x0F74,
    0x0F7A, 0x0F7B, 0x0F7C, 0x0F7D, 0x0F80, 0x0F82, 0x0F83, 0x0F84, 0x0F86, 0x0F87,
    0x0FC6, 0x1037, 0x1039, 0x103A, 0x108D, 0x135D, 0x135E, 0x135F, 0x1714, 0x1715,
    0x1734, 0x17D2, 0x17DD, 0x18A9, 0x1939, 0x193A, 0x193B, 0x1A17, 0x1A18, 0x1A60,
    0x1A75, 0x1A76, 0x1A77, 0x1A78, 0x1A79, 0x1A7A, 0x1A7B, 0x1A7C, 0x1A7F, 0x1AB0,
    0x1AB1, 0x1AB2, 0x1AB3, 0x1AB4, 0x1AB5, 0x1AB6, 0x1AB7, 0x1AB8, 0x1AB9, 0x1ABA,
    0x1ABB, 0x1ABC, 0x1ABD, 0x1ABF, 0x1AC0, 0x1AC1, 0x1AC2, 0x1AC3, 0x1AC4, 0x1AC5,
    0x1AC6, 0x1AC7, 0x1AC8, 0x1AC9, 0x1ACA, 0x1ACB, 0x1ACC, 0x1ACD, 0x1ACE, 0x1B34,
    0x1B44, 0x1B6B, 0x1B6C, 0x1B6D, 0x1B6E, 0x1B6F, 0x1B70, 0x1B71, 0x1B72, 0x1B73,
    0x1BAA, 0x1BAB, 0x1BE6, 0x1BF2, 0x1BF3, 0x1C37, 0x1CD0, 0x1CD1, 0x1CD2, 0x1CD4,
    0x1CD5, 0x1CD6, 0x1CD7, 0x1CD8, 0x1CD9, 0x1CDA, 0x1CDB, 0x1CDC, 0x1CDD, 0x1CDE,
    0x1CDF, 0x1CE0, 0x1CE2, 0x1CE3, 0x1CE4, 0x1CE5, 0x1CE6, 0x1CE7, 0x1CE8, 0x1CED,
    0x1CF4, 0x1CF8, 0x1CF9, 0x1DC0, 0x1DC1, 0x1DC2, 0x1DC3, 0x1DC4, 0x1DC5, 0x1DC6,
    0x1DC7, 0x1DC8, 0x1DC9, 0x1DCA, 0x1DCB, 0x1DCC, 0x1DCD, 0x1DCE, 0x1DCF, 0x1DD0,
    0x1DD1, 0x1DD2, 0x1DD3, 0x1DD4, 0x1DD5, 0x1DD6, 0x1DD7, 0x1DD8, 0x1DD9, 0x1DDA,
    0x1DDB, 0x1DDC, 0x1DDD, 0x1DDE, 0x1DDF, 0x1DE0, 0x1DE1, 0x1DE2, 0x1DE3, 0x1DE4,
    0x1DE5, 0x1DE6, 0x1DE7, 0x1DE8, 0x1DE9, 0x1DEA, 0x1DEB, 0x1DEC, 0x1DED, 0x1DEE,
    0x1DEF, 0x1DF0, 0x1DF1, 0x1DF2, 0x1DF3, 0x1DF4, 0x1DF5, 0x1DF6, 0x1DF7, 0x1DF8,
    0x1DF9, 0x1DFA, 0x1DFB, 0x1DFC, 0x1DFD, 0x1DFE, 0x1DFF, 0x20D0, 0x20D1, 0x20D2,
    0x20D3, 0x20D4, 0x20D5, 0x20D6, 0x20D7, 0x20D8, 0x20D9, 0x20DA, 0x20DB, 0x20DC,
    0x20E1, 0x20E5, 0x20E6, 0x20E7, 0x20E8, 0x20E9, 0x20EA, 0x20EB, 0x20EC, 0x20ED,
    0x20EE, 0x20EF, 0x20F0, 0x2CEF, 0x2CF0, 0x2CF1, 0x2D7F, 0x2DE0, 0x2DE1, 0x2DE2,
    0x2DE3, 0x2DE4, 0x2DE5, 0x2DE6, 0x2DE7, 0x2DE8, 0x2DE9, 0x2DEA, 0x2DEB, 0x2DEC,
    0x2DED, 0x2DEE, 0x2DEF, 0x2DF0, 0x2DF1, 0x2DF2, 0x2DF3, 0x2DF4, 0x2DF5, 0x2DF6,
    0x2DF7, 0x2DF8, 0x2DF9, 0x2DFA, 0x2DFB, 0x2DFC, 0x2DFD, 0x2DFE, 0x2DFF, 0x302A,
    0x302B, 0x302C, 0x302D, 0x302E, 0x302F, 0x3099, 0x309A, 0xA66F, 0xA674, 0xA675,
    0xA676, 0xA677, 0xA678, 0xA679, 0xA67A, 0xA67B, 0xA67C, 0xA67D, 0xA69E, 0xA69F,
    0xA6F0, 0xA6F1, 0xA806, 0xA82C, 0xA8C4, 0xA8E0, 0xA8E1, 0xA8E2, 0xA8E3, 0xA8E4,
    0xA8E5, 0xA8E6, 0xA8E7, 0xA8E8, 0xA8E9, 0xA8EA, 0xA8EB, 0xA8EC, 0xA8ED, 0xA8EE,
    0xA8EF, 0xA8F0, 0xA8F1, 0xA92B, 0xA92C, 0xA92D, 0xA953, 0xA9B3, 0xA9C0, 0xAAB0,
    0xAAB2, 0xAAB3, 0xAAB4, 0xAAB7, 0xAAB8, 0xAABE, 0xAABF, 0xAAC1, 0xAAF6, 0xABED,
    0xFB1E, 0xFE20, 0xFE21, 0xFE22, 0xFE23, 0xFE24, 0xFE25, 0xFE26, 0xFE27, 0xFE28,
    0xFE29, 0xFE2A, 0xFE2B, 0xFE2C, 0xFE2D, 0xFE2E, 0xFE2F, 0x101FD, 0x102E0, 0x10376,
    0x10377, 0x10378, 0x10379, 0x1037A, 0x10A0D, 0x10A0F, 0x10A38, 0x10A39, 0x10A3A, 0x10A3F,
    0x10AE5, 0x10AE6, 0x10D24, 0x10D25, 0x10D26, 0x10D27, 0x10EAB, 0x10EAC, 0x10F46, 0x10F47,
    0x10F48, 0x10F49, 0x10F4A, 0x10F4B, 0x10F4C, 0x10F4D, 0x10F4E, 0x10F4F, 0x10F50, 0x10F82,
    0x10F83, 0x10F84, 0x10F85, 0x11046, 0x11070, 0x1107F, 0x110B9, 0x110BA, 0x11100, 0x11101,
    0x11102, 0x11133, 0x11134, 0x11173, 0x111C0, 0x111CA, 0x11235, 0x11236, 0x112E9, 0x112EA,
    0x1133B, 0x1133C, 0x1134D, 0x11366, 0x11367, 0x11368, 0x11369, 0x1136A, 0x1136B, 0x1136C,
    0x11370, 0x11371, 0x11372, 0x11373, 0x11374, 0x11442, 0x11446, 0x1145E, 0x114C2, 0x114C3,
    0x115BF, 0x115C0, 0x1163F, 0x116B6, 0x116B7, 0x1172B, 0x11839, 0x1183A, 0x1193D, 0x1193E,
    0x11943, 0x119E0, 0x11A34, 0x11A47, 0x11A99, 0x11C3F, 0x11D42, 0x11D44, 0x11D45, 0x11D97,
    0x16AF0, 0x16AF1, 0x16AF2, 0x16AF3, 0x16AF4, 0x16B30, 0x16B31, 0x16B32, 0x16B33, 0x16B34,
    0x16B35, 0x16B36, 0x16FF0, 0x16FF1, 0x1BC9E, 0x1D165, 0x1D166, 0x1D167, 0x1D168, 0x1D169,
    0x1D16D, 0x1D16E, 0x1D16F, 0x1D170, 0x1D171, 0x1D172, 0x1D17B, 0x1D17C, 0x1D17D, 0x1D17E,
    0x1D17F, 0x1D180, 0x1D181, 0x1D182, 0x1D185, 0x1D186, 0x1D187, 0x1D188, 0x1D189, 0x1D18A,
    0x1D18B, 0x1D1AA, 0x1D1AB, 0x1D1AC, 0x1D1AD, 0x1D242, 0x1D243, 0x1D244, 0x1E000, 0x1E001,
    0x1E002, 0x1E003, 0x1E004, 0x1E005, 0x1E006, 0x1E008, 0x1E009, 0x1E00A, 0x1E00B, 0x1E00C,
    0x1E00D, 0x1E00E, 0x1E00F, 0x1E010, 0x1E011, 0x1E012, 0x1E013, 0x1E014, 0x1E015, 0x1E016,
    0x1E017, 0x1E018, 0x1E01B, 0x1E01C, 0x1E01D, 0x1E01E, 0x1E01F, 0x1E020, 0x1E021, 0x1E023,
    0x1E024, 0x1E026, 0x1E027, 0x1E028, 0x1E029, 0x1E02A, 0x1E130, 0x1E131, 0x1E132, 0x1E133,
    0x1E134, 0x1E135, 0x1E136, 0x1E2AE, 0x1E2EC, 0x1E2ED, 0x1E2EE, 0x1E2EF, 0x1E8D0, 0x1E8D1,
    0x1E8D2, 0x1E8D3, 0x1E8D4, 0x1E8D5, 0x1E8D6, 0x1E944, 0x1E945, 0x1E946, 0x1E947, 0x1E948,
    0x1E949, 0x1E94A,
];

/// Code points with a non-zero canonical combining class.
pub closed spec fn combining_keys_data() -> Seq<u32> {
    Seq::empty() + COMBINING_KEYS_0@
}

/// The entries of `combining_keys_data`, in one vector.
pub fn combining_keys() -> (r: Vec<u32>)
    ensures
        r@ == combining_keys_data(),
{
    let mut v: Vec<u32> = Vec::new();
    push_all(&mut v, &COMBINING_KEYS_0);
    v
}

const COMBINING_VALUES_0: [u8; 912] = [
    230, 230, 230, 230, 230, 230, 230, 230, 230, 230, 230, 230, 230, 230, 230, 230, 230, 230, 230, 230,
    230, 232, 220, 220, 220, 220, 232, 216, 220, 220, 220, 220, 220, 202, 202, 220, 220, 220, 220, 202,
    202, 220, 220, 220, 220, 220, 220, 220, 220, 220, 220, 220, 1, 1, 1, 1, 1, 220, 220, 220,
    220, 230, 230, 230, 230, 230, 230, 230, 230, 240, 230, 220, 220, 220, 230, 230, 230, 220, 220, 230,
    230, 230, 220, 220, 220, 220, 230, 232, 220, 220, 230, 233, 234, 234, 233, 234, 234, 233, 230, 230,
    230, 230, 230, 230, 230, 230, 230, 230, 230, 230, 230, 230, 230, 230, 230, 230, 220, 230, 230, 230,
    230, 220, 230, 230, 230, 222, 220, 230, 230, 230, 230, 230, 230, 220, 220, 220, 220, 220, 220, 230,
    230, 220, 230, 230, 222, 228, 230, 10, 11, 12, 13, 14, 15, 16, 17, 18, 19, 19, 20, 21,
    22, 23, 24, 25, 230, 220, 18, 230, 230, 230, 230, 230, 230, 230, 230, 30, 31, 32, 27, 28,
    29, 30, 31, 32, 33, 34, 230, 230, 220, 220, 230, 230, 230, 230, 230, 220, 230, 230, 220, 35,
    230, 230, 230, 230, 230, 230, 230, 230, 230, 230, 230, 220, 230, 230, 230, 220, 230, 230, 220, 36,
    230, 220, 230, 230, 220, 230, 230, 220, 220, 220, 230, 220, 220, 230, 220, 230, 230, 230, 220, 230,
    220, 230, 220, 230, 220, 230, 230, 230, 230, 230, 230, 230, 230, 230, 220, 230, 220, 230, 230, 230,
    230, 230, 230, 230, 230, 230, 230, 230, 230, 230, 230, 230, 230, 230, 230, 230, 230, 230, 220, 220,
    220, 230, 220, 220, 220, 230, 230, 230, 230, 230, 230, 230, 230, 230, 220, 220, 220, 220, 220, 230,
    230, 230, 230, 230, 230, 230, 230, 230, 230, 230, 230, 230, 230, 220, 230, 230, 220, 230, 230, 220,
    230, 230, 230, 220, 220, 220, 27, 28, 29, 230, 230, 230, 220, 230, 230, 220, 220, 230, 230, 230,
    230, 230, 7, 9, 230, 220, 230, 230, 7, 9, 230, 7, 9, 7, 9, 7, 9, 9, 7, 9,
    84, 91, 7, 9, 9, 9, 9, 9, 103, 103, 9, 107, 107, 107, 107, 118, 118, 9, 122, 122,
    122, 122, 220, 220, 220, 220, 216, 129, 130, 132, 130, 130, 130, 130, 130, 230, 230, 9, 230, 230,
    220, 7, 9, 9, 220, 230, 230, 230, 9, 9, 9, 9, 230, 228, 222, 230, 220, 230, 220, 9,
    230, 230, 230, 230, 230, 230, 230, 230, 220, 230, 230, 230, 230, 230, 220, 220, 220, 220, 220, 220,
    230, 230, 220, 220, 220, 230, 230, 220, 220, 230, 230, 230, 230, 230, 220, 230, 230, 230, 230, 7,
    9, 230, 220, 230, 230, 230, 230, 230, 230, 230, 9, 9, 7, 9, 9, 7, 230, 230, 230, 1,
    220, 220, 220, 220, 220, 230, 230, 220, 220, 220, 220, 230, 1, 1, 1, 1, 1, 1, 1, 220,
    230, 230, 230, 230, 230, 220, 230, 230, 230, 230, 230, 230, 230, 220, 230, 230, 234, 214, 220, 202,
    230, 230, 230, 230, 230, 230, 230, 230, 230, 230, 230, 230, 230, 230, 230, 230, 230, 230, 230, 230,
    230, 230, 230, 230, 230, 230, 230, 230, 230, 230, 230, 230, 230, 230, 230, 230, 230, 232, 228, 228,
    220, 218, 230, 233, 220, 230, 220, 230, 230, 1, 1, 230, 230, 230, 230, 1, 1, 1, 230, 230,
    230, 1, 1, 230, 220, 230, 1, 1, 220, 220, 220, 220, 230, 230, 230, 230, 9, 230, 230, 230,
    230, 230, 230, 230, 230, 230, 230, 230, 230, 230, 230, 230, 230, 230, 230, 230, 230, 230, 230, 230,
    230, 230, 230, 230, 230, 230, 230, 230, 230, 218, 228, 232, 222, 224, 224, 8, 8, 230, 230, 230,
    230, 230, 230, 230, 230, 230, 230, 230, 230, 230, 230, 230, 9, 9, 9, 230, 230, 230, 230, 230,
    230, 230, 230, 230, 230, 230, 230, 230, 230, 230, 230, 230, 230, 220, 220, 220, 9, 7, 9, 230,
    230, 230, 220, 230, 230, 230, 230, 230, 9, 9, 26, 230, 230, 230, 230, 230, 230, 230, 220, 220,
    220, 220, 220, 220, 220, 230, 230, 220, 220, 230, 230, 230, 230, 230, 220, 230, 230, 1, 220, 9,
    230, 220, 230, 230, 230, 230, 230, 230, 220, 220, 230, 230, 230, 220, 230, 220, 220, 220, 220, 230,
    220, 230, 220, 9, 9, 9, 9, 7, 230, 230, 230, 9, 9, 7, 9, 7, 9, 7, 7, 9,
    7, 7, 9, 230, 230, 230, 230, 230, 230, 230, 230, 230, 230, 230, 230, 9, 7, 230, 9, 7,
    9, 7, 9, 9, 7, 9, 9, 7, 9, 9, 7, 9, 9, 9, 9, 9, 7, 9, 9, 9,
    1, 1, 1, 1, 1, 230, 230, 230, 230, 230, 230, 230, 6, 6, 1, 216, 216, 1, 1, 1,
    226, 216, 216, 216, 216, 216, 220, 220, 220, 220, 220, 220, 220, 220, 230, 230, 230, 230, 230, 220,
    220, 230, 230, 230, 230, 230, 230, 230, 230, 230, 230, 230, 230, 230, 230, 230, 230, 230, 230, 230,
    230, 230, 230, 230, 230, 230, 230, 230, 230, 230, 230, 230, 230, 230, 230, 230, 230, 230, 230, 230,
    230, 230, 230, 230, 230, 230, 230, 230, 230, 230, 230, 230, 230, 230, 230, 230, 230, 230, 220, 220,
    220, 220, 220, 220, 220, 230, 230, 230, 230, 230, 230, 7,
];

/// The canonical combining class of each code point of `combining_keys_data`.
pub closed spec fn combining_values_data() -> Seq<u8> {
    Seq::empty() + COMBINING_VALUES_0@
}

/// The entries of `combining_values_data`, in one vector.
pub fn combining_values() -> (r: Vec<u8>)
    ensures
        r@ == combining_values_data(),
{
    let mut v: Vec<u8> = Vec::new();
    push_all(&mut v, &COMBINING_VALUES_0);
    v
}

const UPPERCASE_RANGES_0: [(u32, u32); 651] = [
    (0x0041, 0x005A), (0x00C0, 0x00D6), (0x00D8, 0x00DE), (0x0100, 0x0100), (0x0102, 0x0102), (0x0104, 0x0104),
    (0x0106, 0x0106), (0x0108, 0x0108), (0x010A, 0x010A), (0x010C, 0x010C), (0x010E, 0x010E), (0x0110, 0x0110),
    (0x0112, 0x0112), (0x0114, 0x0114), (0x0116, 0x0116), (0x0118, 0x0118), (0x011A, 0x011A), (0x011C, 0x011C),
    (0x011E, 0x011E), (0x0120, 0x0120), (0x0122, 0x0122), (0x0124, 0x0124), (0x0126, 0x0126), (0x0128, 0x0128),
    (0x012A, 0x012A), (0x012C, 0x012C), (0x012E, 0x012E), (0x0130, 0x0130), (0x0132, 0x0132), (0x0134, 0x0134),
    (0x0136, 0x0136), (0x0139, 0x0139), (0x013B, 0x013B), (0x013D, 0x013D), (0x013F, 0x013F), (0x0141, 0x0141),
    (0x0143, 0x0143), (0x0145, 0x0145), (0x0147, 0x0147), (0x014A, 0x014A), (0x014C, 0x014C), (0x014E, 0x014E),
    (0x0150, 0x0150), (0x0152, 0x0152), (0x0154, 0x0154), (0x0156, 0x0156), (0x0158, 0x0158), (0x015A, 0x015A),
    (0x015C, 0x015C), (0x015E, 0x015E), (0x0160, 0x0160), (0x0162, 0x0162), (0x0164, 0x0164), (0x0166, 0x0166),
    (0x0168, 0x0168), (0x016A, 0x016A), (0x016C, 0x016C), (0x016E, 0x016E), (0x0170, 0x0170), (0x0172, 0x0172),
    (0x0174, 0x0174), (0x0176, 0x0176), (0x0178, 0x0179), (0x017B, 0x017B), (0x017D, 0x017D), (0x0181, 0x0182),
    (0x0184, 0x0184), (0x0186, 0x0187), (0x0189, 0x018B), (0x018E, 0x0191), (0x0193, 0x0194), (0x0196, 0x0198),
    (0x019C, 0x019D), (0x019F, 0x01A0), (0x01A2, 0x01A2), (0x01A4, 0x01A4), (0x01A6, 0x01A7), (0x01A9, 0x01A9),
    (0x01AC, 0x01AC), (0x01AE, 0x01AF), (0x01B1, 0x01B3), (0x01B5, 0x01B5), (0x01B7, 0x01B8), (0x01BC, 0x01BC),
    (0x01C4, 0x01C4), (0x01C7, 0x01C7), (0x01CA, 0x01CA), (0x01CD, 0x01CD), (0x01CF, 0x01CF), (0x01D1, 0x01D1),
    (0x01D3, 0x01D3), (0x01D5, 0x01D5), (0x01D7, 0x01D7), (0x01D9, 0x01D9), (0x01DB, 0x01DB), (0x01DE, 0x01DE),
    (0x01E0, 0x01E0), (0x01E2, 0x01E2), (0x01E4, 0x01E4), (0x01E6, 0x01E6), (0x01E8, 0x01E8), (0x01EA, 0x01EA),
    (0x01EC, 0x01EC), (0x01EE, 0x01EE), (0x01F1, 0x01F1), (0x01F4, 0x01F4), (0x01F6, 0x01F8), (0x01FA, 0x01FA),
    (0x01FC, 0x01FC), (0x01FE, 0x01FE), (0x0200, 0x0200), (0x0202, 0x0202), (0x0204, 0x0204), (0x0206, 0x0206),
    (0x0208, 0x0208), (0x020A, 0x020A), (0x020C, 0x020C), (0x020E, 0x020E), (0x0210, 0x0210), (0x0212, 0x0212),
    (0x0214, 0x0214), (0x0216, 0x0216), (0x0218, 0x0218), (0x021A, 0x021A), (0x021C, 0x021C), (0x021E, 0x021E),
    (0x0220, 0x0220), (0x0222, 0x0222), (0x0224, 0x0224), (0x0226, 0x0226), (0x0228, 0x0228), (0x022A, 0x022A),
    (0x022C, 0x022C), (0x022E, 0x022E), (0x0230, 0x0230), (0x0232, 0x0232), (0x023A, 0x023B), (0x023D, 0x023E),
    (0x0241, 0x0241), (0x0243, 0x0246), (0x0248, 0x0248), (0x024A, 0x024A), (0x024C, 0x024C), (0x024E, 0x024E),
    (0x0370, 0x0370), (0x0372, 0x0372), (0x0376, 0x0376), (0x037F, 0x037F), (0x0386, 0x0386), (0x0388, 0x038A),
    (0x038C, 0x038C), (0x038E, 0x038F), (0x0391, 0x03A1), (0x03A3, 0x03AB), (0x03CF, 0x03CF), (0x03D2, 0x03D4),
    (0x03D8, 0x03D8), (0x03DA, 0x03DA), (0x03DC, 0x03DC), (0x03DE, 0x03DE), (0x03E0, 0x03E0), (0x03E2, 0x03E2),
    (0x03E4, 0x03E4), (0x03E6, 0x03E6), (0x03E8, 0x03E8), (0x03EA, 0x03EA), (0x03EC, 0x03EC), (0x03EE, 0x03EE),
    (0x03F4, 0x03F4), (0x03F7, 0x03F7), (0x03F9, 0x03FA), (0x03FD, 0x042F), (0x0460, 0x0460), (0x0462, 0x0462),
    (0x0464, 0x0464), (0x0466, 0x0466), (0x0468, 0x0468), (0x046A, 0x046A), (0x046C, 0x046C), (0x046E, 0x046E),
    (0x0470, 0x0470), (0x0472, 0x0472), (0x0474, 0x0474), (0x0476, 0x0476), (0x0478, 0x0478), (0x047A, 0x047A),
    (0x047C, 0x047C), (0x047E, 0x047E), (0x0480, 0x0480), (0x048A, 0x048A), (0x048C, 0x048C), (0x048E, 0x048E),
    (0x0490, 0x0490), (0x0492, 0x0492), (0x0494, 0x0494), (0x0496, 0x0496), (0x0498, 0x0498), (0x049A, 0x049A),
    (0x049C, 0x049C), (0x049E, 0x049E), (0x04A0, 0x04A0), (0x04A2, 0x04A2), (0x04A4, 0x04A4), (0x04A6, 0x04A6),
    (0x04A8, 0x04A8), (0x04AA, 0x04AA), (0x04AC, 0x04AC), (0x04AE, 0x04AE), (0x04B0, 0x04B0), (0x04B2, 0x04B2),
    (0x04B4, 0x04B4), (0x04B6, 0x04B6), (0x04B8, 0x04B8), (0x04BA, 0x04BA), (0x04BC, 0x04BC), (0x04BE, 0x04BE),
    (0x04C0, 0x04C1), (0x04C3, 0x04C3), (0x04C5, 0x04C5), (0x04C7, 0x04C7), (0x04C9, 0x04C9), (0x04CB, 0x04CB),
    (0x04CD, 0x04CD), (0x04D0, 0x04D0), (0x04D2, 0x04D2), (0x04D4, 0x04D4), (0x04D6, 0x04D6), (0x04D8, 0x04D8),
    (0x04DA, 0x04DA), (0x04DC, 0x04DC), (0x04DE, 0x04DE), (0x04E0, 0x04E0), (0x04E2, 0x04E2), (0x04E4, 0x04E4),
    (0x04E6, 0x04E6), (0x04E8, 0x04E8), (0x04EA, 0x04EA), (0x04EC, 0x04EC), (0x04EE, 0x04EE), (0x04F0, 0x04F0),
    (0x04F2, 0x04F2), (0x04F4, 0x04F4), (0x04F6, 0x04F6), (0x04F8, 0x04F8), (0x04FA, 0x04FA), (0x04FC, 0x04FC),
    (0x04FE, 0x04FE), (0x0500, 0x0500), (0x0502, 0x0502), (0x0504, 0x0504), (0x0506, 0x0506), (0x0508, 0x0508),
    (0x050A, 0x050A), (0x050C, 0x050C), (0x050E, 0x050E), (0x0510, 0x0510), (0x0512, 0x0512), (0x0514, 0x0514),
    (0x0516, 0x0516), (0x0518, 0x0518), (0x051A, 0x051A), (0x051C, 0x051C), (0x051E, 0x051E), (0x0520, 0x0520),
    (0x0522, 0x0522), (0x0524, 0x0524), (0x0526, 0x0526), (0x0528, 0x0528), (0x052A, 0x052A), (0x052C, 0x052C),
    (0x052E, 0x052E), (0x0531, 0x0556), (0x10A0, 0x10C5), (0x10C7, 0x10C7), (0x10CD, 0x10CD), (0x13A0, 0x13F5),
    (0x1C90, 0x1CBA), (0x1CBD, 0x1CBF), (0x1E00, 0x1E00), (0x1E02, 0x1E02), (0x1E04, 0x1E04), (0x1E06, 0x1E06),
    (0x1E08, 0x1E08), (0x1E0A, 0x1E0A), (0x1E0C, 0x1E0C), (0x1E0E, 0x1E0E), (0x1E10, 0x1E10), (0x1E12, 0x1E12),
    (0x1E14, 0x1E14), (0x1E16, 0x1E16), (0x1E18, 0x1E18), (0x1E1A, 0x1E1A), (0x1E1C, 0x1E1C), (0x1E1E, 0x1E1E),
    (0x1E20, 0x1E20), (0x1E22, 0x1E22), (0x1E24, 0x1E24), (0x1E26, 0x1E26), (0x1E28, 0x1E28), (0x1E2A, 0x1E2A),
    (0x1E2C, 0x1E2C), (0x1E2E, 0x1E2E), (0x1E30, 0x1E30), (0x1E32, 0x1E32), (0x1E34, 0x1E34), (0x1E36, 0x1E36),
    (0x1E38, 0x1E38), (0x1E3A, 0x1E3A), (0x1E3C, 0x1E3C), (0x1E3E, 0x1E3E), (0x1E40, 0x1E40), (0x1E42, 0x1E42),
    (0x1E44, 0x1E44), (0x1E46, 0x1E46), (0x1E48, 0x1E48), (0x1E4A, 0x1E4A), (0x1E4C, 0x1E4C), (0x1E4E, 0x1E4E),
    (0x1E50, 0x1E50), (0x1E52, 0x1E52), (0x1E54, 0x1E54), (0x1E56, 0x1E56), (0x1E58, 0x1E58), (0x1E5A, 0x1E5A),
    (0x1E5C, 0x1E5C), (0x1E5E, 0x1E5E), (0x1E60, 0x1E60), (0x1E62, 0x1E62), (0x1E64, 0x1E64), (0x1E66, 0x1E66),
    (0x1E68, 0x1E68), (0x1E6A, 0x1E6A), (0x1E6C, 0x1E6C), (0x1E6E, 0x1E6E), (0x1E70, 0x1E70), (0x1E72, 0x1E72),
    (0x1E74, 0x1E74), (0x1E76, 0x1E76), (0x1E78, 0x1E78), (0x1E7A, 0x1E7A), (0x1E7C, 0x1E7C), (0x1E7E, 0x1E7E),
    (0x1E80, 0x1E80), (0x1E82, 0x1E82), (0x1E84, 0x1E84), (0x1E86, 0x1E86), (0x1E88, 0x1E88), (0x1E8A, 0x1E8A),
    (0x1E8C, 0x1E8C), (0x1E8E, 0x1E8E), (0x1E90, 0x1E90), (0x1E92, 0x1E92), (0x1E94, 0x1E94), (0x1E9E, 0x1E9E),
    (0x1EA0, 0x1EA0), (0x1EA2, 0x1EA2), (0x1EA4, 0x1EA4), (0x1EA6, 0x1EA6), (0x1EA8, 0x1EA8), (0x1EAA, 0x1EAA),
    (0x1EAC, 0x1EAC), (0x1EAE, 0x1EAE), (0x1EB0, 0x1EB0), (0x1EB2, 0x1EB2), (0x1EB4, 0x1EB4), (0x1EB6, 0x1EB6),
    (0x1EB8, 0x1EB8), (0x1EBA, 0x1EBA), (0x1EBC, 0x1EBC), (0x1EBE, 0x1EBE), (0x1EC0, 0x1EC0), (0x1EC2, 0x1EC2),
    (0x1EC4, 0x1EC4), (0x1EC6, 0x1EC6), (0x1EC8, 0x1EC8), (0x1ECA, 0x1ECA), (0x1ECC, 0x1ECC), (0x1ECE, 0x1ECE),
    (0x1ED0, 0x1ED0), (0x1ED2, 0x1ED2), (0x1ED4, 0x1ED4), (0x1ED6, 0x1ED6), (0x1ED8, 0x1ED8), (0x1EDA, 0x1EDA),
    (0x1EDC, 0x1EDC), (0x1EDE, 0x1EDE), (0x1EE0, 0x1EE0), (0x1EE2, 0x1EE2), (0x1EE4, 0x1EE4), (0x1EE6, 0x1EE6),
    (0x1EE8, 0x1EE8), (0x1EEA, 0x1EEA), (0x1EEC, 0x1EEC), (0x1EEE, 0x1EEE), (0x1EF0, 0x1EF0), (0x1EF2, 0x1EF2),
    (0x1EF4, 0x1EF4), (0x1EF6, 0x1EF6), (0x1EF8, 0x1EF8), (0x1EFA, 0x1EFA), (0x1EFC, 0x1EFC), (0x1EFE, 0x1EFE),
    (0x1F08, 0x1F0F), (0x1F18, 0x1F1D), (0x1F28, 0x1F2F), (0x1F38, 0x1F3F), (0x1F48, 0x1F4D), (0x1F59, 0x1F59),
    (0x1F5B, 0x1F5B), (0x1F5D, 0x1F5D), (0x1F5F, 0x1F5F), (0x1F68, 0x1F6F), (0x1FB8, 0x1FBB), (0x1FC8, 0x1FCB),
    (0x1FD8, 0x1FDB), (0x1FE8, 0x1FEC), (0x1FF8, 0x1FFB), (0x2102, 0x2102), (0x2107, 0x2107), (0x210B, 0x210D),
    (0x2110, 0x2112), (0x2115, 0x2115), (0x2119, 0x211D), (0x2124, 0x2124), (0x2126, 0x2126), (0x2128, 0x2128),
    (0x212A, 0x212D), (0x2130, 0x2133), (0x213E, 0x213F), (0x2145, 0x2145), (0x2160, 0x216F), (0x2183, 0x2183),
    (0x24B6, 0x24CF), (0x2C00, 0x2C2F), (0x2C60, 0x2C60), (0x2C62, 0x2C64), (0x2C67, 0x2C67), (0x2C69, 0x2C69),
    (0x2C6B, 0x2C6B), (0x2C6D, 0x2C70), (0x2C72, 0x2C72), (0x2C75, 0x2C75), (0x2C7E, 0x2C80), (0x2C82, 0x2C82),
    (0x2C84, 0x2C84), (0x2C86, 0x2C86), (0x2C88, 0x2C88), (0x2C8A, 0x2C8A), (0x2C8C, 0x2C8C), (0x2C8E, 0x2C8E),
    (0x2C90, 0x2C90), (0x2C92, 0x2C92), (0x2C94, 0x2C94), (0x2C96, 0x2C96), (0x2C98, 0x2C98), (0x2C9A, 0x2C9A),
    (0x2C9C, 0x2C9C), (0x2C9E, 0x2C9E), (0x2CA0, 0x2CA0), (0x2CA2, 0x2CA2), (0x2CA4, 0x2CA4), (0x2CA6, 0x2CA6),
    (0x2CA8, 0x2CA8), (0x2CAA, 0x2CAA), (0x2CAC, 0x2CAC), (0x2CAE, 0x2CAE), (0x2CB0, 0x2CB0), (0x2CB2, 0x2CB2),
    (0x2CB4, 0x2CB4), (0x2CB6, 0x2CB6), (0x2CB8, 0x2CB8), (0x2CBA, 0x2CBA), (0x2CBC, 0x2CBC), (0x2CBE, 0x2CBE),
    (0x2CC0, 0x2CC0), (0x2CC2, 0x2CC2), (0x2CC4, 0x2CC4), (0x2CC6, 0x2CC6), (0x2CC8, 0x2CC8), (0x2CCA, 0x2CCA),
    (0x2CCC, 0x2CCC), (0x2CCE, 0x2CCE), (0x2CD0, 0x2CD0), (0x2CD2, 0x2CD2), (0x2CD4, 0x2CD4), (0x2CD6, 0x2CD6),
    (0x2CD8, 0x2CD8), (0x2CDA, 0x2CDA), (0x2CDC, 0x2CDC), (0x2CDE, 0x2CDE), (0x2CE0, 0x2CE0), (0x2CE2, 0x2CE2),
    (0x2CEB, 0x2CEB), (0x2CED, 0x2CED), (0x2CF2, 0x2CF2), (0xA640, 0xA640), (0xA642, 0xA642), (0xA644, 0xA644),
    (0xA646, 0xA646), (0xA648, 0xA648), (0xA64A, 0xA64A), (0xA64C, 0xA64C), (0xA64E, 0xA64E), (0xA650, 0xA650),
    (0xA652, 0xA652), (0xA654, 0xA654), (0xA656, 0xA656), (0xA658, 0xA658), (0xA65A, 0xA65A), (0xA65C, 0xA65C),
    (0xA65E, 0xA65E), (0xA660, 0xA660), (0xA662, 0xA662), (0xA664, 0xA664), (0xA666, 0xA666), (0xA668, 0xA668),
    (0xA66A, 0xA66A), (0xA66C, 0xA66C), (0xA680, 0xA680), (0xA682, 0xA682), (0xA684, 0xA684), (0xA686, 0xA686),
    (0xA688, 0xA688), (0xA68A, 0xA68A), (0xA68C, 0xA68C), (0xA68E, 0xA68E), (0xA690, 0xA690), (0xA692, 0xA692),
    (0xA694, 0xA694), (0xA696, 0xA696), (0xA698, 0xA698), (0xA69A, 0xA69A), (0xA722, 0xA722), (0xA724, 0xA724),
    (0xA726, 0xA726), (0xA728, 0xA728), (0xA72A, 0xA72A), (0xA72C, 0xA72C), (0xA72E, 0xA72E), (0xA732, 0xA732),
    (0xA734, 0xA734), (0xA736, 0xA736), (0xA738, 0xA738), (0xA73A, 0xA73A), (0xA73C, 0xA73C), (0xA73E, 0xA73E),
    (0xA740, 0xA740), (0xA742, 0xA742), (0xA744, 0xA744), (0xA746, 0xA746), (0xA748, 0xA748), (0xA74A, 0xA74A),
    (0xA74C, 0xA74C), (0xA74E, 0xA74E), (0xA750, 0xA750), (0xA752, 0xA752), (0xA754, 0xA754), (0xA756, 0xA756),
    (0xA758, 0xA758), (0xA75A, 0xA75A), (0xA75C, 0xA75C), (0xA75E, 0xA75E), (0xA760, 0xA760), (0xA762, 0xA762),
    (0xA764, 0xA764), (0xA766, 0xA766), (0xA768, 0xA768), (0xA76A, 0xA76A), (0xA76C, 0xA76C), (0xA76E, 0xA76E),
    (0xA779, 0xA779), (0xA77B, 0xA77B), (0xA77D, 0xA77E), (0xA780, 0xA780), (0xA782, 0xA782), (0xA784, 0xA784),
    (0xA786, 0xA786), (0xA78B, 0xA78B), (0xA78D, 0xA78D), (0xA790, 0xA790), (0xA792, 0xA792), (0xA796, 0xA796),
    (0xA798, 0xA798), (0xA79A, 0xA79A), (0xA79C, 0xA79C), (0xA79E, 0xA79E), (0xA7A0, 0xA7A0), (0xA7A2, 0xA7A2),
    (0xA7A4, 0xA7A4), (0xA7A6, 0xA7A6), (0xA7A8, 0xA7A8), (0xA7AA, 0xA7AE), (0xA7B0, 0xA7B4), (0xA7B6, 0xA7B6),
    (0xA7B8, 0xA7B8), (0xA7BA, 0xA7BA), (0xA7BC, 0xA7BC), (0xA7BE, 0xA7BE), (0xA7C0, 0xA7C0), (0xA7C2, 0xA7C2),
    (0xA7C4, 0xA7C7), (0xA7C9, 0xA7C9), (0xA7D0, 0xA7D0), (0xA7D6, 0xA7D6), (0xA7D8, 0xA7D8), (0xA7F5, 0xA7F5),
    (0xFF21, 0xFF3A), (0x10400, 0x10427), (0x104B0, 0x104D3), (0x10570, 0x1057A), (0x1057C, 0x1058A), (0x1058C, 0x10592),
    (0x10594, 0x10595), (0x10C80, 0x10CB2), (0x118A0, 0x118BF), (0x16E40, 0x16E5F), (0x1D400, 0x1D419), (0x1D434, 0x1D44D),
    (0x1D468, 0x1D481), (0x1D49C, 0x1D49C), (0x1D49E, 0x1D49F), (0x1D4A2, 0x1D4A2), (0x1D4A5, 0x1D4A6), (0x1D4A9, 0x1D4AC),
    (0x1D4AE, 0x1D4B5), (0x1D4D0, 0x1D4E9), (0x1D504, 0x1D505), (0x1D507, 0x1D50A), (0x1D50D, 0x1D514), (0x1D516, 0x1D51C),
    (0x1D538, 0x1D539), (0x1D53B, 0x1D53E), (0x1D540, 0x1D544), (0x1D546, 0x1D546), (0x1D54A, 0x1D550), (0x1D56C, 0x1D585),
    (0x1D5A0, 0x1D5B9), (0x1D5D4, 0x1D5ED), (0x1D608, 0x1D621), (0x1D63C, 0x1D655), (0x1D670, 0x1D689), (0x1D6A8, 0x1D6C0),
    (0x1D6E2, 0x1D6FA), (0x1D71C, 0x1D734), (0x1D756, 0x1D76E), (0x1D790, 0x1D7A8), (0x1D7CA, 0x1D7CA), (0x1E900, 0x1E921),
    (0x1F130, 0x1F149), (0x1F150, 0x1F169), (0x1F170, 0x1F189),
];

/// Intervals of code points with the Uppercase property.
pub closed spec fn uppercase_ranges_data() -> Seq<(u32, u32)> {
    Seq::empty() + UPPERCASE_RANGES_0@
}

/// The entries of `uppercase_ranges_data`, in one vector.
pub fn uppercase_ranges() -> (r: Vec<(u32, u32)>)
    ensures
        r@ == uppercase_ranges_data(),
{
    let mut v: Vec<(u32, u32)> = Vec::new();
    push_all(&mut v, &UPPERCASE_RANGES_0);
    v
}

const LOWERCASE_RANGES_0: [(u32, u32); 668] = [
    (0x0061, 0x007A), (0x00AA, 0x00AA), (0x00B5, 0x00B5), (0x00BA, 0x00BA), (0x00DF, 0x00F6), (0x00F8, 0x00FF),
    (0x0101, 0x0101), (0x0103, 0x0103), (0x0105, 0x0105), (0x0107, 0x0107), (0x0109, 0x0109), (0x010B, 0x010B),
    (0x010D, 0x010D), (0x010F, 0x010F), (0x0111, 0x0111), (0x0113, 0x0113), (0x0115, 0x0115), (0x0117, 0x0117),
    (0x0119, 0x0119), (0x011B, 0x011B), (0x011D, 0x011D), (0x011F, 0x011F), (0x0121, 0x0121), (0x0123, 0x0123),
    (0x0125, 0x0125), (0x0127, 0x0127), (0x0129, 0x0129), (0x012B, 0x012B), (0x012D, 0x012D), (0x012F, 0x012F),
    (0x0131, 0x0131), (0x0133, 0x0133), (0x0135, 0x0135), (0x0137, 0x0138), (0x013A, 0x013A), (0x013C, 0x013C),
    (0x013E, 0x013E), (0x0140, 0x0140), (0x0142, 0x0142), (0x0144, 0x0144), (0x0146, 0x0146), (0x0148, 0x0149),
    (0x014B, 0x014B), (0x014D, 0x014D), (0x014F, 0x014F), (0x0151, 0x0151), (0x0153, 0x0153), (0x0155, 0x0155),
    (0x0157, 0x0157), (0x0159, 0x0159), (0x015B, 0x015B), (0x015D, 0x015D), (0x015F, 0x015F), (0x0161, 0x0161),
    (0x0163, 0x0163), (0x0165, 0x0165), (0x0167, 0x0167), (0x0169, 0x0169), (0x016B, 0x016B), (0x016D, 0x016D),
    (0x016F, 0x016F), (0x0171, 0x0171), (0x0173, 0x0173), (0x0175, 0x0175), (0x0177, 0x0177), (0x017A, 0x017A),
    (0x017C, 0x017C), (0x017E, 0x0180), (0x0183, 0x0183), (0x0185, 0x0185), (0x0188, 0x0188), (0x018C, 0x018D),
    (0x0192, 0x0192), (0x0195, 0x0195), (0x0199, 0x019B), (0x019E, 0x019E), (0x01A1, 0x01A1), (0x01A3, 0x01A3),
    (0x01A5, 0x01A5), (0x01A8, 0x01A8), (0x01AA, 0x01AB), (0x01AD, 0x01AD), (0x01B0, 0x01B0), (0x01B4, 0x01B4),
    (0x01B6, 0x01B6), (0x01B9, 0x01BA), (0x01BD, 0x01BF), (0x01C6, 0x01C6), (0x01C9, 0x01C9), (0x01CC, 0x01CC),
    (0x01CE, 0x01CE), (0x01D0, 0x01D0), (0x01D2, 0x01D2), (0x01D4, 0x01D4), (0x01D6, 0x01D6), (0x01D8, 0x01D8),
    (0x01DA, 0x01DA), (0x01DC, 0x01DD), (0x01DF, 0x01DF), (0x01E1, 0x01E1), (0x01E3, 0x01E3), (0x01E5, 0x01E5),
    (0x01E7, 0x01E7), (0x01E9, 0x01E9), (0x01EB, 0x01EB), (0x01ED, 0x01ED), (0x01EF, 0x01F0), (0x01F3, 0x01F3),
    (0x01F5, 0x01F5), (0x01F9, 0x01F9), (0x01FB, 0x01FB), (0x01FD, 0x01FD), (0x01FF, 0x01FF), (0x0201, 0x0201),
    (0x0203, 0x0203), (0x0205, 0x0205), (0x0207, 0x0207), (0x0209, 0x0209), (0x020B, 0x020B), (0x020D, 0x020D),
    (0x020F, 0x020F), (0x0211, 0x0211), (0x0213, 0x0213), (0x0215, 0x0215), (0x0217, 0x0217), (0x0219, 0x0219),
    (0x021B, 0x021B), (0x021D, 0x021D), (0x021F, 0x021F), (0x0221, 0x0221), (0x0223, 0x0223), (0x0225, 0x0225),
    (0x0227, 0x0227), (0x0229, 0x0229), (0x022B, 0x022B), (0x022D, 0x022D), (0x022F, 0x022F), (0x0231, 0x0231),
    (0x0233, 0x0239), (0x023C, 0x023C), (0x023F, 0x0240), (0x0242, 0x0242), (0x0247, 0x0247), (0x0249, 0x0249),
    (0x024B, 0x024B), (0x024D, 0x024D), (0x024F, 0x0293), (0x0295, 0x02B8), (0x02C0, 0x02C1), (0x02E0, 0x02E4),
    (0x0345, 0x0345), (0x0371, 0x0371), (0x0373, 0x0373), (0x0377, 0x0377), (0x037A, 0x037D), (0x0390, 0x0390),
    (0x03AC, 0x03CE), (0x03D0, 0x03D1), (0x03D5, 0x03D7), (0x03D9, 0x03D9), (0x03DB, 0x03DB), (0x03DD, 0x03DD),
    (0x03DF, 0x03DF), (0x03E1, 0x03E1), (0x03E3, 0x03E3), (0x03E5, 0x03E5), (0x03E7, 0x03E7), (0x03E9, 0x03E9),
    (0x03EB, 0x03EB), (0x03ED, 0x03ED), (0x03EF, 0x03F3), (0x03F5, 0x03F5), (0x03F8, 0x03F8), (0x03FB, 0x03FC),
    (0x0430, 0x045F), (0x0461, 0x0461), (0x0463, 0x0463), (0x0465, 0x0465), (0x0467, 0x0467), (0x0469, 0x0469),
    (0x046B, 0x046B), (0x046D, 0x046D), (0x046F, 0x046F), (0x0471, 0x0471), (0x0473, 0x0473), (0x0475, 0x0475),
    (0x0477, 0x0477), (0x0479, 0x0479), (0x047B, 0x047B), (0x047D, 0x047D), (0x047F, 0x047F), (0x0481, 0x0481),
    (0x048B, 0x048B), (0x048D, 0x048D), (0x048F, 0x048F), (0x0491, 0x0491), (0x0493, 0x0493), (0x0495, 0x0495),
    (0x0497, 0x0497), (0x0499, 0x0499), (0x049B, 0x049B), (0x049D, 0x049D), (0x049F, 0x049F), (0x04A1, 0x04A1),
    (0x04A3, 0x04A3), (0x04A5, 0x04A5), (0x04A7, 0x04A7), (0x04A9, 0x04A9), (0x04AB, 0x04AB), (0x04AD, 0x04AD),
    (0x04AF, 0x04AF), (0x04B1, 0x04B1), (0x04B3, 0x04B3), (0x04B5, 0x04B5), (0x04B7, 0x04B7), (0x04B9, 0x04B9),
    (0x04BB, 0x04BB), (0x04BD, 0x04BD), (0x04BF, 0x04BF), (0x04C2, 0x04C2), (0x04C4, 0x04C4), (0x04C6, 0x04C6),
    (0x04C8, 0x04C8), (0x04CA, 0x04CA), (0x04CC, 0x04CC), (0x04CE, 0x04CF), (0x04D1, 0x04D1), (0x04D3, 0x04D3),
    (0x04D5, 0x04D5), (0x04D7, 0x04D7), (0x04D9, 0x04D9), (0x04DB, 0x04DB), (0x04DD, 0x04DD), (0x04DF, 0x04DF),
    (0x04E1, 0x04E1), (0x04E3, 0x04E3), (0x04E5, 0x04E5), (0x04E7, 0x04E7), (0x04E9, 0x04E9), (0x04EB, 0x04EB),
    (0x04ED, 0x04ED), (0x04EF, 0x04EF), (0x04F1, 0x04F1), (0x04F3, 0x04F3), (0x04F5, 0x04F5), (0x04F7, 0x04F7),
    (0x04F9, 0x04F9), (0x04FB, 0x04FB), (0x04FD, 0x04FD), (0x04FF, 0x04FF), (0x0501, 0x0501), (0x0503, 0x0503),
    (0x0505, 0x0505), (0x0507, 0x0507), (0x0509, 0x0509), (0x050B, 0x050B), (0x050D, 0x050D), (0x050F, 0x050F),
    (0x0511, 0x0511), (0x0513, 0x0513), (0x0515, 0x0515), (0x0517, 0x0517), (0x0519, 0x0519), (0x051B, 0x051B),
    (0x051D, 0x051D), (0x051F, 0x051F), (0x0521, 0x0521), (0x0523, 0x0523), (0x0525, 0x0525), (0x0527, 0x0527),
    (0x0529, 0x0529), (0x052B, 0x052B), (0x052D, 0x052D), (0x052F, 0x052F), (0x0560, 0x0588), (0x10D0, 0x10FA),
    (0x10FD, 0x10FF), (0x13F8, 0x13FD), (0x1C80, 0x1C88), (0x1D00, 0x1DBF), (0x1E01, 0x1E01), (0x1E03, 0x1E03),
    (0x1E05, 0x1E05), (0x1E07, 0x1E07), (0x1E09, 0x1E09), (0x1E0B, 0x1E0B), (0x1E0D, 0x1E0D), (0x1E0F, 0x1E0F),
    (0x1E11, 0x1E11), (0x1E13, 0x1E13), (0x1E15, 0x1E15), (0x1E17, 0x1E17), (0x1E19, 0x1E19), (0x1E1B, 0x1E1B),
    (0x1E1D, 0x1E1D), (0x1E1F, 0x1E1F), (0x1E21, 0x1E21), (0x1E23, 0x1E23), (0x1E25, 0x1E25), (0x1E27, 0x1E27),
    (0x1E29, 0x1E29), (0x1E2B, 0x1E2B), (0x1E2D, 0x1E2D), (0x1E2F, 0x1E2F), (0x1E31, 0x1E31), (0x1E33, 0x1E33),
    (0x1E35, 0x1E35), (0x1E37, 0x1E37), (0x1E39, 0x1E39), (0x1E3B, 0x1E3B), (0x1E3D, 0x1E3D), (0x1E3F, 0x1E3F),
    (0x1E41, 0x1E41), (0x1E43, 0x1E43), (0x1E45, 0x1E45), (0x1E47, 0x1E47), (0x1E49, 0x1E49), (0x1E4B, 0x1E4B),
    (0x1E4D, 0x1E4D), (0x1E4F, 0x1E4F), (0x1E51, 0x1E51), (0x1E53, 0x1E53), (0x1E55, 0x1E55), (0x1E57, 0x1E57),
    (0x1E59, 0x1E59), (0x1E5B, 0x1E5B), (0x1E5D, 0x1E5D), (0x1E5F, 0x1E5F), (0x1E61, 0x1E61), (0x1E63, 0x1E63),
    (0x1E65, 0x1E65), (0x1E67, 0x1E67), (0x1E69, 0x1E69), (0x1E6B, 0x1E6B), (0x1E6D, 0x1E6D), (0x1E6F, 0x1E6F),
    (0x1E71, 0x1E71), (0x1E73, 0x1E73), (0x1E75, 0x1E75), (0x1E77, 0x1E77), (0x1E79, 0x1E79), (0x1E7B, 0x1E7B),
    (0x1E7D, 0x1E7D), (0x1E7F, 0x1E7F), (0x1E81, 0x1E81), (0x1E83, 0x1E83), (0x1E85, 0x1E85), (0x1E87, 0x1E87),
    (0x1E89, 0x1E89), (0x1E8B, 0x1E8B), (0x1E8D, 0x1E8D), (0x1E8F, 0x1E8F), (0x1E91, 0x1E91), (0x1E93, 0x1E93),
    (0x1E95, 0x1E9D), (0x1E9F, 0x1E9F), (0x1EA1, 0x1EA1), (0x1EA3, 0x1EA3), (0x1EA5, 0x1EA5), (0x1EA7, 0x1EA7),
    (0x1EA9, 0x1EA9), (0x1EAB, 0x1EAB), (0x1EAD, 0x1EAD), (0x1EAF, 0x1EAF), (0x1EB1, 0x1EB1), (0x1EB3, 0x1EB3),
    (0x1EB5, 0x1EB5), (0x1EB7, 0x1EB7), (0x1EB9, 0x1EB9), (0x1EBB, 0x1EBB), (0x1EBD, 0x1EBD), (0x1EBF, 0x1EBF),
    (0x1EC1, 0x1EC1), (0x1EC3, 0x1EC3), (0x1EC5, 0x1EC5), (0x1EC7, 0x1EC7), (0x1EC9, 0x1EC9), (0x1ECB, 0x1ECB),
    (0x1ECD, 0x1ECD), (0x1ECF, 0x1ECF), (0x1ED1, 0x1ED1), (0x1ED3, 0x1ED3), (0x1ED5, 0x1ED5), (0x1ED7, 0x1ED7),
    (0x1ED9, 0x1ED9), (0x1EDB, 0x1EDB), (0x1EDD, 0x1EDD), (0x1EDF, 0x1EDF), (0x1EE1, 0x1EE1), (0x1EE3, 0x1EE3),
    (0x1EE5, 0x1EE5), (0x1EE7, 0x1EE7), (0x1EE9, 0x1EE9), (0x1EEB, 0x1EEB), (0x1EED, 0x1EED), (0x1EEF, 0x1EEF),
    (0x1EF1, 0x1EF1), (0x1EF3, 0x1EF3), (0x1EF5, 0x1EF5), (0x1EF7, 0x1EF7), (0x1EF9, 0x1EF9), (0x1EFB, 0x1EFB),
    (0x1EFD, 0x1EFD), (0x1EFF, 0x1F07), (0x1F10, 0x1F15), (0x1F20, 0x1F27), (0x1F30, 0x1F37), (0x1F40, 0x1F45),
    (0x1F50, 0x1F57), (0x1F60, 0x1F67), (0x1F70, 0x1F7D), (0x1F80, 0x1F87), (0x1F90, 0x1F97), (0x1FA0, 0x1FA7),
    (0x1FB0, 0x1FB4), (0x1FB6, 0x1FB7), (0x1FBE, 0x1FBE), (0x1FC2, 0x1FC4), (0x1FC6, 0x1FC7), (0x1FD0, 0x1FD3),
    (0x1FD6, 0x1FD7), (0x1FE0, 0x1FE7), (0x1FF2, 0x1FF4), (0x1FF6, 0x1FF7), (0x2071, 0x2071), (0x207F, 0x207F),
    (0x2090, 0x209C), (0x210A, 0x210A), (0x210E, 0x210F), (0x2113, 0x2113), (0x212F, 0x212F), (0x2134, 0x2134),
    (0x2139, 0x2139), (0x213C, 0x213D), (0x2146, 0x2149), (0x214E, 0x214E), (0x2170, 0x217F), (0x2184, 0x2184),
    (0x24D0, 0x24E9), (0x2C30, 0x2C5F), (0x2C61, 0x2C61), (0x2C65, 0x2C66), (0x2C68, 0x2C68), (0x2C6A, 0x2C6A),
    (0x2C6C, 0x2C6C), (0x2C71, 0x2C71), (0x2C73, 0x2C74), (0x2C76, 0x2C7D), (0x2C81, 0x2C81), (0x2C83, 0x2C83),
    (0x2C85, 0x2C85), (0x2C87, 0x2C87), (0x2C89, 0x2C89), (0x2C8B, 0x2C8B), (0x2C8D, 0x2C8D), (0x2C8F, 0x2C8F),
    (0x2C91, 0x2C91), (0x2C93, 0x2C93), (0x2C95, 0x2C95), (0x2C97, 0x2C97), (0x2C99, 0x2C99), (0x2C9B, 0x2C9B),
    (0x2C9D, 0x2C9D), (0x2C9F, 0x2C9F), (0x2CA1, 0x2CA1), (0x2CA3, 0x2CA3), (0x2CA5, 0x2CA5), (0x2CA7, 0x2CA7),
    (0x2CA9, 0x2CA9), (0x2CAB, 0x2CAB), (0x2CAD, 0x2CAD), (0x2CAF, 0x2CAF), (0x2CB1, 0x2CB1), (0x2CB3, 0x2CB3),
    (0x2CB5, 0x2CB5), (0x2CB7, 0x2CB7), (0x2CB9, 0x2CB9), (0x2CBB, 0x2CBB), (0x2CBD, 0x2CBD), (0x2CBF, 0x2CBF),
    (0x2CC1, 0x2CC1), (0x2CC3, 0x2CC3), (0x2CC5, 0x2CC5), (0x2CC7, 0x2CC7), (0x2CC9, 0x2CC9), (0x2CCB, 0x2CCB),
    (0x2CCD, 0x2CCD), (0x2CCF, 0x2CCF), (0x2CD1, 0x2CD1), (0x2CD3, 0x2CD3), (0x2CD5, 0x2CD5), (0x2CD7, 0x2CD7),
    (0x2CD9, 0x2CD9), (0x2CDB, 0x2CDB), (0x2CDD, 0x2CDD), (0x2CDF, 0x2CDF), (0x2CE1, 0x2CE1), (0x2CE3, 0x2CE4),
    (0x2CEC, 0x2CEC), (0x2CEE, 0x2CEE), (0x2CF3, 0x2CF3), (0x2D00, 0x2D25), (0x2D27, 0x2D27), (0x2D2D, 0x2D2D),
    (0xA641, 0xA641), (0xA643, 0xA643), (0xA645, 0xA645), (0xA647, 0xA647), (0xA649, 0xA649), (0xA64B, 0xA64B),
    (0xA64D, 0xA64D), (0xA64F, 0xA64F), (0xA651, 0xA651), (0xA653, 0xA653), (0xA655, 0xA655), (0xA657, 0xA657),
    (0xA659, 0xA659), (0xA65B, 0xA65B), (0xA65D, 0xA65D), (0xA65F, 0xA65F), (0xA661, 0xA661), (0xA663, 0xA663),
    (0xA665, 0xA665), (0xA667, 0xA667), (0xA669, 0xA669), (0xA66B, 0xA66B), (0xA66D, 0xA66D), (0xA681, 0xA681),
    (0xA683, 0xA683), (0xA685, 0xA685), (0xA687, 0xA687), (0xA689, 0xA689), (0xA68B, 0xA68B), (0xA68D, 0xA68D),
    (0xA68F, 0xA68F), (0xA691, 0xA691), (0xA693, 0xA693), (0xA695, 0xA695), (0xA697, 0xA697), (0xA699, 0xA699),
    (0xA69B, 0xA69D), (0xA723, 0xA723), (0xA725, 0xA725), (0xA727, 0xA727), (0xA729, 0xA729), (0xA72B, 0xA72B),
    (0xA72D, 0xA72D), (0xA72F, 0xA731), (0xA733, 0xA733), (0xA735, 0xA735), (0xA737, 0xA737), (0xA739, 0xA739),
    (0xA73B, 0xA73B), (0xA73D, 0xA73D), (0xA73F, 0xA73F), (0xA741, 0xA741), (0xA743, 0xA743), (0xA745, 0xA745),
    (0xA747, 0xA747), (0xA749, 0xA749), (0xA74B, 0xA74B), (0xA74D, 0xA74D), (0xA74F, 0xA74F), (0xA751, 0xA751),
    (0xA753, 0xA753), (0xA755, 0xA755), (0xA757, 0xA757), (0xA759, 0xA759), (0xA75B, 0xA75B), (0xA75D, 0xA75D),
    (0xA75F, 0xA75F), (0xA761, 0xA761), (0xA763, 0xA763), (0xA765, 0xA765), (0xA767, 0xA767), (0xA769, 0xA769),
    (0xA76B, 0xA76B), (0xA76D, 0xA76D), (0xA76F, 0xA778), (0xA77A, 0xA77A), (0xA77C, 0xA77C), (0xA77F, 0xA77F),
    (0xA781, 0xA781), (0xA783, 0xA783), (0xA785, 0xA785), (0xA787, 0xA787), (0xA78C, 0xA78C), (0xA78E, 0xA78E),
    (0xA791, 0xA791), (0xA793, 0xA795), (0xA797, 0xA797), (0xA799, 0xA799), (0xA79B, 0xA79B), (0xA79D, 0xA79D),
    (0xA79F, 0xA79F), (0xA7A1, 0xA7A1), (0xA7A3, 0xA7A3), (0xA7A5, 0xA7A5), (0xA7A7, 0xA7A7), (0xA7A9, 0xA7A9),
    (0xA7AF, 0xA7AF), (0xA7B5, 0xA7B5), (0xA7B7, 0xA7B7), (0xA7B9, 0xA7B9), (0xA7BB, 0xA7BB), (0xA7BD, 0xA7BD),
    (0xA7BF, 0xA7BF), (0xA7C1, 0xA7C1), (0xA7C3, 0xA7C3), (0xA7C8, 0xA7C8), (0xA7CA, 0xA7CA), (0xA7D1, 0xA7D1),
    (0xA7D3, 0xA7D3), (0xA7D5, 0xA7D5), (0xA7D7, 0xA7D7), (0xA7D9, 0xA7D9), (0xA7F6, 0xA7F6), (0xA7F8, 0xA7FA),
    (0xAB30, 0xAB5A), (0xAB5C, 0xAB68), (0xAB70, 0xABBF), (0xFB00, 0xFB06), (0xFB13, 0xFB17), (0xFF41, 0xFF5A),
    (0x10428, 0x1044F), (0x104D8, 0x104FB), (0x10597, 0x105A1), (0x105A3, 0x105B1), (0x105B3, 0x105B9), (0x105BB, 0x105BC),
    (0x10780, 0x10780), (0x10783, 0x10785), (0x10787, 0x107B0), (0x107B2, 0x107BA), (0x10CC0, 0x10CF2), (0x118C0, 0x118DF),
    (0x16E60, 0x16E7F), (0x1D41A, 0x1D433), (0x1D44E, 0x1D454), (0x1D456, 0x1D467), (0x1D482, 0x1D49B), (0x1D4B6, 0x1D4B9),
    (0x1D4BB, 0x1D4BB), (0x1D4BD, 0x1D4C3), (0x1D4C5, 0x1D4CF), (0x1D4EA, 0x1D503), (0x1D51E, 0x1D537), (0x1D552, 0x1D56B),
    (0x1D586, 0x1D59F), (0x1D5BA, 0x1D5D3), (0x1D5EE, 0x1D607), (0x1D622, 0x1D63B), (0x1D656, 0x1D66F), (0x1D68A, 0x1D6A5),
    (0x1D6C2, 0x1D6DA), (0x1D6DC, 0x1D6E1), (0x1D6FC, 0x1D714), (0x1D716, 0x1D71B), (0x1D736, 0x1D74E), (0x1D750, 0x1D755),
    (0x1D770, 0x1D788), (0x1D78A, 0x1D78F), (0x1D7AA, 0x1D7C2), (0x1D7C4, 0x1D7C9), (0x1D7CB, 0x1D7CB), (0x1DF00, 0x1DF09),
    (0x1DF0B, 0x1DF1E), (0x1E922, 0x1E943),
];

/// Intervals of code points with the Lowercase property.
pub closed spec fn lowercase_ranges_data() -> Seq<(u32, u32)> {
    Seq::empty() + LOWERCASE_RANGES_0@
}

/// The entries of `lowercase_ranges_data`, in one vector.
pub fn lowercase_ranges() -> (r: Vec<(u32, u32)>)
    ensures
        r@ == lowercase_ranges_data(),
{
    let mut v: Vec<(u32, u32)> = Vec::new();
    push_all(&mut v, &LOWERCASE_RANGES_0);
    v
}

const OTHER_ALPHABETIC_RANGES_0: [(u32, u32); 245] = [
    (0x0345, 0x0345), (0x05B0, 0x05BD), (0x05BF, 0x05BF), (0x05C1, 0x05C2), (0x05C4, 0x05C5), (0x05C7, 0x05C7),
    (0x0610, 0x061A), (0x064B, 0x0657), (0x0659, 0x065F), (0x0670, 0x0670), (0x06D6, 0x06DC), (0x06E1, 0x06E4),
    (0x06E7, 0x06E8), (0x06ED, 0x06ED), (0x0711, 0x0711), (0x0730, 0x073F), (0x07A6, 0x07B0), (0x0816, 0x0817),
    (0x081B, 0x0823), (0x0825, 0x0827), (0x0829, 0x082C), (0x08D4, 0x08DF), (0x08E3, 0x08E9), (0x08F0, 0x0903),
    (0x093A, 0x093B), (0x093E, 0x094C), (0x094E, 0x094F), (0x0955, 0x0957), (0x0962, 0x0963), (0x0981, 0x0983),
    (0x09BE, 0x09C4), (0x09C7, 0x09C8), (0x09CB, 0x09CC), (0x09D7, 0x09D7), (0x09E2, 0x09E3), (0x0A01, 0x0A03),
    (0x0A3E, 0x0A42), (0x0A47, 0x0A48), (0x0A4B, 0x0A4C), (0x0A51, 0x0A51), (0x0A70, 0x0A71), (0x0A75, 0x0A75),
    (0x0A81, 0x0A83), (0x0ABE, 0x0AC5), (0x0AC7, 0x0AC9), (0x0ACB, 0x0ACC), (0x0AE2, 0x0AE3), (0x0AFA, 0x0AFC),
    (0x0B01, 0x0B03), (0x0B3E, 0x0B44), (0x0B47, 0x0B48), (0x0B4B, 0x0B4C), (0x0B56, 0x0B57), (0x0B62, 0x0B63),
    (0x0B82, 0x0B82), (0x0BBE, 0x0BC2), (0x0BC6, 0x0BC8), (0x0BCA, 0x0BCC), (0x0BD7, 0x0BD7), (0x0C00, 0x0C03),
    (0x0C3E, 0x0C44), (0x0C46, 0x0C48), (0x0C4A, 0x0C4C), (0x0C55, 0x0C56), (0x0C62, 0x0C63), (0x0C81, 0x0C83),
    (0x0CBE, 0x0CC4), (0x0CC6, 0x0CC8), (0x0CCA, 0x0CCC), (0x0CD5, 0x0CD6), (0x0CE2, 0x0CE3), (0x0D00, 0x0D03),
    (0x0D3E, 0x0D44), (0x0D46, 0x0D48), (0x0D4A, 0x0D4C), (0x0D57, 0x0D57), (0x0D62, 0x0D63), (0x0D81, 0x0D83),
    (0x0DCF, 0x0DD4), (0x0DD6, 0x0DD6), (0x0DD8, 0x0DDF), (0x0DF2, 0x0DF3), (0x0E31, 0x0E31), (0x0E34, 0x0E3A),
    (0x0E4D, 0x0E4D), (0x0EB1, 0x0EB1), (0x0EB4, 0x0EB9), (0x0EBB, 0x0EBC), (0x0ECD, 0x0ECD), (0x0F71, 0x0F81),
    (0x0F8D, 0x0F97), (0x0F99, 0x0FBC), (0x102B, 0x1036), (0x1038, 0x1038), (0x103B, 0x103E), (0x1056, 0x1059),
    (0x105E, 0x1060), (0x1062, 0x1064), (0x1067, 0x106D), (0x1071, 0x1074), (0x1082, 0x108D), (0x108F, 0x108F),
    (0x109A, 0x109D), (0x16EE, 0x16F0), (0x1712, 0x1713), (0x1732, 0x1733), (0x1752, 0x1753), (0x1772, 0x1773),
    (0x17B6, 0x17C8), (0x1885, 0x1886), (0x18A9, 0x18A9), (0x1920, 0x192B), (0x1930, 0x1938), (0x1A17, 0x1A1B),
    (0x1A55, 0x1A5E), (0x1A61, 0x1A74), (0x1ABF, 0x1AC0), (0x1ACC, 0x1ACE), (0x1B00, 0x1B04), (0x1B35, 0x1B43),
    (0x1B80, 0x1B82), (0x1BA1, 0x1BA9), (0x1BAC, 0x1BAD), (0x1BE7, 0x1BF1), (0x1C24, 0x1C36), (0x1DE7, 0x1DF4),
    (0x2160, 0x2182), (0x2185, 0x2188), (0x24B6, 0x24E9), (0x2DE0, 0x2DFF), (0x3007, 0x3007), (0x3021, 0x3029),
    (0x3038, 0x303A), (0xA674, 0xA67B), (0xA69E, 0xA69F), (0xA6E6, 0xA6EF), (0xA802, 0xA802), (0xA80B, 0xA80B),
    (0xA823, 0xA827), (0xA880, 0xA881), (0xA8B4, 0xA8C3), (0xA8C5, 0xA8C5), (0xA8FF, 0xA8FF), (0xA926, 0xA92A),
    (0xA947, 0xA952), (0xA980, 0xA983), (0xA9B4, 0xA9BF), (0xA9E5, 0xA9E5), (0xAA29, 0xAA36), (0xAA43, 0xAA43),
    (0xAA4C, 0xAA4D), (0xAA7B, 0xAA7D), (0xAAB0, 0xAAB0), (0xAAB2, 0xAAB4), (0xAAB7, 0xAAB8), (0xAABE, 0xAABE),
    (0xAAEB, 0xAAEF), (0xAAF5, 0xAAF5), (0xABE3, 0xABEA), (0xFB1E, 0xFB1E), (0x10140, 0x10174), (0x10341, 0x10341),
    (0x1034A, 0x1034A), (0x10376, 0x1037A), (0x103D1, 0x103D5), (0x10A01, 0x10A03), (0x10A05, 0x10A06), (0x10A0C, 0x10A0F),
    (0x10D24, 0x10D27), (0x10EAB, 0x10EAC), (0x11000, 0x11002), (0x11038, 0x11045), (0x11073, 0x11074), (0x11082, 0x11082),
    (0x110B0, 0x110B8), (0x110C2, 0x110C2), (0x11100, 0x11102), (0x11127, 0x11132), (0x11145, 0x11146), (0x11180, 0x11182),
    (0x111B3, 0x111BF), (0x111CE, 0x111CF), (0x1122C, 0x11234), (0x11237, 0x11237), (0x1123E, 0x1123E), (0x112DF, 0x112E8),
    (0x11300, 0x11303), (0x1133E, 0x11344), (0x11347, 0x11348), (0x1134B, 0x1134C), (0x11357, 0x11357), (0x11362, 0x11363),
    (0x11435, 0x11441), (0x11443, 0x11445), (0x114B0, 0x114C1), (0x115AF, 0x115B5), (0x115B8, 0x115BE), (0x115DC, 0x115DD),
    (0x11630, 0x1163E), (0x11640, 0x11640), (0x116AB, 0x116B5), (0x1171D, 0x1172A), (0x1182C, 0x11838), (0x11930, 0x11935),
    (0x11937, 0x11938), (0x1193B, 0x1193C), (0x11940, 0x11940), (0x11942, 0x11942), (0x119D1, 0x119D7), (0x119DA, 0x119DF),
    (0x119E4, 0x119E4), (0x11A01, 0x11A0A), (0x11A35, 0x11A39), (0x11A3B, 0x11A3E), (0x11A51, 0x11A5B), (0x11A8A, 0x11A97),
    (0x11C2F, 0x11C36), (0x11C38, 0x11C3E), (0x11C92, 0x11CA7), (0x11CA9, 0x11CB6), (0x11D31, 0x11D36), (0x11D3A, 0x11D3A),
    (0x11D3C, 0x11D3D), (0x11D3F, 0x11D41), (0x11D43, 0x11D43), (0x11D47, 0x11D47), (0x11D8A, 0x11D8E), (0x11D90, 0x11D91),
    (0x11D93, 0x11D96), (0x11EF3, 0x11EF6), (0x12400, 0x1246E), (0x16F4F, 0x16F4F), (0x16F51, 0x16F87), (0x16F8F, 0x16F92),
    (0x16FF0, 0x16FF1), (0x1BC9E, 0x1BC9E), (0x1E000, 0x1E006), (0x1E008, 0x1E018), (0x1E01B, 0x1E021), (0x1E023, 0x1E024),
    (0x1E026, 0x1E02A), (0x1E947, 0x1E947), (0x1F130, 0x1F149), (0x1F150, 0x1F169), (0x1F170, 0x1F189),
];

/// Intervals of alphabetic code points outside the letter categories.
pub closed spec fn other_alphabetic_ranges_data() -> Seq<(u32, u32)> {
    Seq::empty() + OTHER_ALPHABETIC_RANGES_0@
}

/// The entries of `other_alphabetic_ranges_data`, in one vector.
pub fn other_alphabetic_ranges() -> (r: Vec<(u32, u32)>)
    ensures
        r@ == other_alphabetic_ranges_data(),
{
    let mut v: Vec<(u32, u32)> = Vec::new();
    push_all(&mut v, &OTHER_ALPHABETIC_RANGES_0);
    v
}

const CANONICAL_KEYS_0: [u32; 1000] = [
    0x00C0, 0x00C1, 0x00C2, 0x00C3, 0x00C4, 0x00C5, 0x00C7, 0x00C8, 0x00C9, 0x00CA,
    0x00CB, 0x00CC, 0x00CD, 0x00CE, 0x00CF, 0x00D1, 0x00D2, 0x00D3, 0x00D4, 0x00D5,
    0x00D6, 0x00D9, 0x00DA, 0x00DB, 0x00DC, 0x00DD, 0x00E0, 0x00E1, 0x00E2, 0x00E3,
    0x00E4, 0x00E5, 0x00E7, 0x00E8, 0x00E9, 0x00EA, 0x00EB, 0x00EC, 0x00ED, 0x00EE,
    0x00EF, 0x00F1, 0x00F2, 0x00F3, 0x00F4, 0x00F5, 0x00F6, 0x00F9, 0x00FA, 0x00FB,
    0x00FC, 0x00FD, 0x00FF, 0x0100, 0x0101, 0x0102, 0x0103, 0x0104, 0x0105, 0x0106,
    0x0107, 0x0108, 0x0109, 0x010A, 0x010B, 0x010C, 0x010D, 0x010E, 0x010F, 0x0112,
    0x0113, 0x0114, 0x0115, 0x0116, 0x0117, 0x0118, 0x0119, 0x011A, 0x011B, 0x011C,
    0x011D, 0x011E, 0x011F, 0x0120, 0x0121, 0x0122, 0x0123, 0x0124, 0x0125, 0x0128,
    0x0129, 0x012A, 0x012B, 0x012C, 0x012D, 0x012E, 0x012F, 0x0130, 0x0134, 0x0135,
    0x0136, 0x0137, 0x0139, 0x013A, 0x013B, 0x013C, 0x013D, 0x013E, 0x0143, 0x0144,
    0x0145, 0x0146, 0x0147, 0x0148, 0x014C, 0x014D, 0x014E, 0x014F, 0x0150, 0x0151,
    0x0154, 0x0155, 0x0156, 0x0157, 0x0158, 0x0159, 0x015A, 0x015B, 0x015C, 0x015D,
    0x015E, 0x015F, 0x0160, 0x0161, 0x0162, 0x0163, 0x0164, 0x0165, 0x0168, 0x0169,
    0x016A, 0x016B, 0x016C, 0x016D, 0x016E, 0x016F, 0x0170, 0x0171, 0x0172, 0x0173,
    0x0174, 0x0175, 0x0176, 0x0177, 0x0178, 0x0179, 0x017A, 0x017B, 0x017C, 0x017D,
    0x017E, 0x01A0, 0x01A1, 0x01AF, 0x01B0, 0x01CD, 0x01CE, 0x01CF, 0x01D0, 0x01D1,
    0x01D2, 0x01D3, 0x01D4, 0x01D5, 0x01D6, 0x01D7, 0x01D8, 0x01D9, 0x01DA, 0x01DB,
    0x01DC, 0x01DE, 0x01DF, 0x01E0, 0x01E1, 0x01E2, 0x01E3, 0x01E6, 0x01E7, 0x01E8,
    0x01E9, 0x01EA, 0x01EB, 0x01EC, 0x01ED, 0x01EE, 0x01EF, 0x01F0, 0x01F4, 0x01F5,
    0x01F8, 0x01F9, 0x01FA, 0x01FB, 0x01FC, 0x01FD, 0x01FE, 0x01FF, 0x0200, 0x0201,
    0x0202, 0x0203, 0x0204, 0x0205, 0x0206, 0x0207, 0x0208, 0x0209, 0x020A, 0x020B,
    0x020C, 0x020D, 0x020E, 0x020F, 0x0210, 0x0211, 0x0212, 0x0213, 0x0214, 0x0215,
    0x0216, 0x0217, 0x0218, 0x0219, 0x021A, 0x021B, 0x021E, 0x021F, 0x0226, 0x0227,
    0x0228, 0x0229, 0x022A, 0x022B, 0x022C, 0x022D, 0x022E, 0x022F, 0x0230, 0x0231,
    0x0232, 0x0233, 0x0340, 0x0341, 0x0343, 0x0344, 0x0374, 0x037E, 0x0385, 0x0386,
    0x0387, 0x0388, 0x0389, 0x038A, 0x038C, 0x038E, 0x038F, 0x0390, 0x03AA, 0x03AB,
    0x03AC, 0x03AD, 0x03AE, 0x03AF, 0x03B0, 0x03CA, 0x03CB, 0x03CC, 0x03CD, 0x03CE,
    0x03D3, 0x03D4, 0x0400, 0x0401, 0x0403, 0x0407, 0x040C, 0x040D, 0x040E, 0x0419,
    0x0439, 0x0450, 0x0451, 0x0453, 0x0457, 0x045C, 0x045D, 0x045E, 0x0476, 0x0477,
    0x04C1, 0x04C2, 0x04D0, 0x04D1, 0x04D2, 0x04D3, 0x04D6, 0x04D7, 0x04DA, 0x04DB,
    0x04DC, 0x04DD, 0x04DE, 0x04DF, 0x04E2, 0x04E3, 0x04E4, 0x04E5, 0x04E6, 0x04E7,
    0x04EA, 0x04EB, 0x04EC, 0x04ED, 0x04EE, 0x04EF, 0x04F0, 0x04F1, 0x04F2, 0x04F3,
    0x04F4, 0x04F5, 0x04F8, 0x04F9, 0x0622, 0x0623, 0x0624, 0x0625, 0x0626, 0x06C0,
    0x06C2, 0x06D3, 0x0929, 0x0931, 0x0934, 0x0958, 0x0959, 0x095A, 0x095B, 0x095C,
    0x095D, 0x095E, 0x095F, 0x09CB, 0x09CC, 0x09DC, 0x09DD, 0x09DF, 0x0A33, 0x0A36,
    0x0A59, 0x0A5A, 0x0A5B, 0x0A5E, 0x0B48, 0x0B4B, 0x0B4C, 0x0B5C, 0x0B5D, 0x0B94,
    0x0BCA, 0x0BCB, 0x0BCC, 0x0C48, 0x0CC0, 0x0CC7, 0x0CC8, 0x0CCA, 0x0CCB, 0x0D4A,
    0x0D4B, 0x0D4C, 0x0DDA, 0x0DDC, 0x0DDD, 0x0DDE, 0x0F43, 0x0F4D, 0x0F52, 0x0F57,
    0x0F5C, 0x0F69, 0x0F73, 0x0F75, 0x0F76, 0x0F78, 0x0F81, 0x0F93, 0x0F9D, 0x0FA2,
    0x0FA7, 0x0FAC, 0x0FB9, 0x1026, 0x1B06, 0x1B08, 0x1B0A, 0x1B0C, 0x1B0E, 0x1B12,
    0x1B3B, 0x1B3D, 0x1B40, 0x1B41, 0x1B43, 0x1E00, 0x1E01, 0x1E02, 0x1E03, 0x1E04,
    0x1E05, 0x1E06, 0x1E07, 0x1E08, 0x1E09, 0x1E0A, 0x1E0B, 0x1E0C, 0x1E0D, 0x1E0E,
    0x1E0F, 0x1E10, 0x1E11, 0x1E12, 0x1E13, 0x1E14, 0x1E15, 0x1E16, 0x1E17, 0x1E18,
    0x1E19, 0x1E1A, 0x1E1B, 0x1E1C, 0x1E1D, 0x1E1E, 0x1E1F, 0x1E20, 0x1E21, 0x1E22,
    0x1E23, 0x1E24, 0x1E25, 0x1E26, 0x1E27, 0x1E28, 0x1E29, 0x1E2A, 0x1E2B, 0x1E2C,
    0x1E2D, 0x1E2E, 0x1E2F, 0x1E30, 0x1E31, 0x1E32, 0x1E33, 0x1E34, 0x1E35, 0x1E36,
    0x1E37, 0x1E38, 0x1E39, 0x1E3A, 0x1E3B, 0x1E3C, 0x1E3D, 0x1E3E, 0x1E3F, 0x1E40,
    0x1E41, 0x1E42, 0x1E43, 0x1E44, 0x1E45, 0x1E46, 0x1E47, 0x1E48, 0x1E49, 0x1E4A,
    0x1E4B, 0x1E4C, 0x1E4D, 0x1E4E, 0x1E4F, 0x1E50, 0x1E51, 0x1E52, 0x1E53, 0x1E54,
    0x1E55, 0x1E56, 0x1E57, 0x1E58, 0x1E59, 0x1E5A, 0x1E5B, 0x1E5C, 0x1E5D, 0x1E5E,
    0x1E5F, 0x1E60, 0x1E61, 0x1E62, 0x1E63, 0x1E64, 0x1E65, 0x1E66, 0x1E67, 0x1E68,
    0x1E69, 0x1E6A, 0x1E6B, 0x1E6C, 0x1E6D, 0x1E6E, 0x1E6F, 0x1E70, 0x1E71, 0x1E72,
    0x1E73, 0x1E74, 0x1E75, 0x1E76, 0x1E77, 0x1E78, 0x1E79, 0x1E7A, 0x1E7B, 0x1E7C,
    0x1E7D, 0x1E7E, 0x1E7F, 0x1E80, 0x1E81, 0x1E82, 0x1E83, 0x1E84, 0x1E85, 0x1E86,
    0x1E87, 0x1E88, 0x1E89, 0x1E8A, 0x1E8B, 0x1E8C, 0x1E8D, 0x1E8E, 0x1E8F, 0x1E90,
    0x1E91, 0x1E92, 0x1E93, 0x1E94, 0x1E95, 0x1E96, 0x1E97, 0x1E98, 0x1E99, 0x1E9B,
    0x1EA0, 0x1EA1, 0x1EA2, 0x1EA3, 0x1EA4, 0x1EA5, 0x1EA6, 0x1EA7, 0x1EA8, 0x1EA9,
    0x1EAA, 0x1EAB, 0x1EAC, 0x1EAD, 0x1EAE, 0x1EAF, 0x1EB0, 0x1EB1, 0x1EB2, 0x1EB3,
    0x1EB4, 0x1EB5, 0x1EB6, 0x1EB7, 0x1EB8, 0x1EB9, 0x1EBA, 0x1EBB, 0x1EBC, 0x1EBD,
    0x1EBE, 0x1EBF, 0x1EC0, 0x1EC1, 0x1EC2, 0x1EC3, 0x1EC4, 0x1EC5, 0x1EC6, 0x1EC7,
    0x1EC8, 0x1EC9, 0x1ECA, 0x1ECB, 0x1ECC, 0x1ECD, 0x1ECE, 0x1ECF, 0x1ED0, 0x1ED1,
    0x1ED2, 0x1ED3, 0x1ED4, 0x1ED5, 0x1ED6, 0x1ED7, 0x1ED8, 0x1ED9, 0x1EDA, 0x1EDB,
    0x1EDC, 0x1EDD, 0x1EDE, 0x1EDF, 0x1EE0, 0x1EE1, 0x1EE2, 0x1EE3, 0x1EE4, 0x1EE5,
    0x1EE6, 0x1EE7, 0x1EE8, 0x1EE9, 0x1EEA, 0x1EEB, 0x1EEC, 0x1EED, 0x1EEE, 0x1EEF,
    0x1EF0, 0x1EF1, 0x1EF2, 0x1EF3, 0x1EF4, 0x1EF5, 0x1EF6, 0x1EF7, 0x1EF8, 0x1EF9,
    0x1F00, 0x1F01, 0x1F02, 0x1F03, 0x1F04, 0x1F05, 0x1F06, 0x1F07, 0x1F08, 0x1F09,
    0x1F0A, 0x1F0B, 0x1F0C, 0x1F0D, 0x1F0E, 0x1F0F, 0x1F10, 0x1F11, 0x1F12, 0x1F13,
    0x1F14, 0x1F15, 0x1F18, 0x1F19, 0x1F1A, 0x1F1B, 0x1F1C, 0x1F1D, 0x1F20, 0x1F21,
    0x1F22, 0x1F23, 0x1F24, 0x1F25, 0x1F26, 0x1F27, 0x1F28, 0x1F29, 0x1F2A, 0x1F2B,
    0x1F2C, 0x1F2D, 0x1F2E, 0x1F2F, 0x1F30, 0x1F31, 0x1F32, 0x1F33, 0x1F34, 0x1F35,
    0x1F36, 0x1F37, 0x1F38, 0x1F39, 0x1F3A, 0x1F3B, 0x1F3C, 0x1F3D, 0x1F3E, 0x1F3F,
    0x1F40, 0x1F41, 0x1F42, 0x1F43, 0x1F44, 0x1F45, 0x1F48, 0x1F49, 0x1F4A, 0x1F4B,
    0x1F4C, 0x1F4D, 0x1F50, 0x1F51, 0x1F52, 0x1F53, 0x1F54, 0x1F55, 0x1F56, 0x1F57,
    0x1F59, 0x1F5B, 0x1F5D, 0x1F5F, 0x1F60, 0x1F61, 0x1F62, 0x1F63, 0x1F64, 0x1F65,
    0x1F66, 0x1F67, 0x1F68, 0x1F69, 0x1F6A, 0x1F6B, 0x1F6C, 0x1F6D, 0x1F6E, 0x1F6F,
    0x1F70, 0x1F71, 0x1F72, 0x1F73, 0x1F74, 0x1F75, 0x1F76, 0x1F77, 0x1F78, 0x1F79,
    0x1F7A, 0x1F7B, 0x1F7C, 0x1F7D, 0x1F80, 0x1F81, 0x1F82, 0x1F83, 0x1F84, 0x1F85,
    0x1F86, 0x1F87, 0x1F88, 0x1F89, 0x1F8A, 0x1F8B, 0x1F8C, 0x1F8D, 0x1F8E, 0x1F8F,
    0x1F90, 0x1F91, 0x1F92, 0x1F93, 0x1F94, 0x1F95, 0x1F96, 0x1F97, 0x1F98, 0x1F99,
    0x1F9A, 0x1F9B, 0x1F9C, 0x1F9D, 0x1F9E, 0x1F9F, 0x1FA0, 0x1FA1, 0x1FA2, 0x1FA3,
    0x1FA4, 0x1FA5, 0x1FA6, 0x1FA7, 0x1FA8, 0x1FA9, 0x1FAA, 0x1FAB, 0x1FAC, 0x1FAD,
    0x1FAE, 0x1FAF, 0x1FB0, 0x1FB1, 0x1FB2, 0x1FB3, 0x1FB4, 0x1FB6, 0x1FB7, 0x1FB8,
    0x1FB9, 0x1FBA, 0x1FBB, 0x1FBC, 0x1FBE, 0x1FC1, 0x1FC2, 0x1FC3, 0x1FC4, 0x1FC6,
    0x1FC7, 0x1FC8, 0x1FC9, 0x1FCA, 0x1FCB, 0x1FCC, 0x1FCD, 0x1FCE, 0x1FCF, 0x1FD0,
    0x1FD1, 0x1FD2, 0x1FD3, 0x1FD6, 0x1FD7, 0x1FD8, 0x1FD9, 0x1FDA, 0x1FDB, 0x1FDD,
    0x1FDE, 0x1FDF, 0x1FE0, 0x1FE1, 0x1FE2, 0x1FE3, 0x1FE4, 0x1FE5, 0x1FE6, 0x1FE7,
    0x1FE8, 0x1FE9, 0x1FEA, 0x1FEB, 0x1FEC, 0x1FED, 0x1FEE, 0x1FEF, 0x1FF2, 0x1FF3,
    0x1FF4, 0x1FF6, 0x1FF7, 0x1FF8, 0x1FF9, 0x1FFA, 0x1FFB, 0x1FFC, 0x1FFD, 0x2000,
    0x2001, 0x2126, 0x212A, 0x212B, 0x219A, 0x219B, 0x21AE, 0x21CD, 0x21CE, 0x21CF,
    0x2204, 0x2209, 0x220C, 0x2224, 0x2226, 0x2241, 0x2244, 0x2247, 0x2249, 0x2260,
    0x2262, 0x226D, 0x226E, 0x226F, 0x2270, 0x2271, 0x2274, 0x2275, 0x2278, 0x2279,
    0x2280, 0x2281, 0x2284, 0x2285, 0x2288, 0x2289, 0x22AC, 0x22AD, 0x22AE, 0x22AF,
    0x22E0, 0x22E1, 0x22E2, 0x22E3, 0x22EA, 0x22EB, 0x22EC, 0x22ED, 0x2329, 0x232A,
    0x2ADC, 0x304C, 0x304E, 0x3050, 0x3052, 0x3054, 0x3056, 0x3058, 0x305A, 0x305C,
    0x305E, 0x3060, 0x3062, 0x3065, 0x3067, 0x3069, 0x3070, 0x3071, 0x3073, 0x3074,
    0x3076, 0x3077, 0x3079, 0x307A, 0x307C, 0x307D, 0x3094, 0x309E, 0x30AC, 0x30AE,
    0x30B0, 0x30B2, 0x30B4, 0x30B6, 0x30B8, 0x30BA, 0x30BC, 0x30BE, 0x30C0, 0x30C2,
    0x30C5, 0x30C7, 0x30C9, 0x30D0, 0x30D1, 0x30D3, 0x30D4, 0x30D6, 0x30D7, 0x30D9,
    0x30DA, 0x30DC, 0x30DD, 0x30F4, 0x30F7, 0x30F8, 0x30F9, 0x30FA, 0x30FE, 0xF900,
];

const CANONICAL_KEYS_1: [u32; 1000] = [
    0xF901, 0xF902, 0xF903, 0xF904, 0xF905, 0xF906, 0xF907, 0xF908, 0xF909, 0xF90A,
    0xF90B, 0xF90C, 0xF90D, 0xF90E, 0xF90F, 0xF910, 0xF911, 0xF912, 0xF913, 0xF914,
    0xF915, 0xF916, 0xF917, 0xF918, 0xF919, 0xF91A, 0xF91B, 0xF91C, 0xF91D, 0xF91E,
    0xF91F, 0xF920, 0xF921, 0xF922, 0xF923, 0xF924, 0xF925, 0xF926, 0xF927, 0xF928,
    0xF929, 0xF92A, 0xF92B, 0xF92C, 0xF92D, 0xF92E, 0xF92F, 0xF930, 0xF931, 0xF932,
    0xF933, 0xF934, 0xF935, 0xF936, 0xF937, 0xF938, 0xF939, 0xF93A, 0xF93B, 0xF93C,
    0xF93D, 0xF93E, 0xF93F, 0xF940, 0xF941, 0xF942, 0xF943, 0xF944, 0xF945, 0xF946,
    0xF947, 0xF948, 0xF949, 0xF94A, 0xF94B, 0xF94C, 0xF94D, 0xF94E, 0xF94F, 0xF950,
    0xF951, 0xF952, 0xF953, 0xF954, 0xF955, 0xF956, 0xF957, 0xF958, 0xF959, 0xF95A,
    0xF95B, 0xF95C, 0xF95D, 0xF95E, 0xF95F, 0xF960, 0xF961, 0xF962, 0xF963, 0xF964,
    0xF965, 0xF966, 0xF967, 0xF968, 0xF969, 0xF96A, 0xF96B, 0xF96C, 0xF96D, 0xF96E,
    0xF96F, 0xF970, 0xF971, 0xF972, 0xF973, 0xF974, 0xF975, 0xF976, 0xF977, 0xF978,
    0xF979, 0xF97A, 0xF97B, 0xF97C, 0xF97D, 0xF97E, 0xF97F, 0xF980, 0xF981, 0xF982,
    0xF983, 0xF984, 0xF985, 0xF986, 0xF987, 0xF988, 0xF989, 0xF98A, 0xF98B, 0xF98C,
    0xF98D, 0xF98E, 0xF98F, 0xF990, 0xF991, 0xF992, 0xF993, 0xF994, 0xF995, 0xF996,
    0xF997, 0xF998, 0xF999, 0xF99A, 0xF99B, 0xF99C, 0xF99D, 0xF99E, 0xF99F, 0xF9A0,
    0xF9A1, 0xF9A2, 0xF9A3, 0xF9A4, 0xF9A5, 0xF9A6, 0xF9A7, 0xF9A8, 0xF9A9, 0xF9AA,
    0xF9AB, 0xF9AC, 0xF9AD, 0xF9AE, 0xF9AF, 0xF9B0, 0xF9B1, 0xF9B2, 0xF9B3, 0xF9B4,
    0xF9B5, 0xF9B6, 0xF9B7, 0xF9B8, 0xF9B9, 0xF9BA, 0xF9BB, 0xF9BC, 0xF9BD, 0xF9BE,
    0xF9BF, 0xF9C0, 0xF9C1, 0xF9C2, 0xF9C3, 0xF9C4, 0xF9C5, 0xF9C6, 0xF9C7, 0xF9C8,
    0xF9C9, 0xF9CA, 0xF9CB, 0xF9CC, 0xF9CD, 0xF9CE, 0xF9CF, 0xF9D0, 0xF9D1, 0xF9D2,
    0xF9D3, 0xF9D4, 0xF9D5, 0xF9D6, 0xF9D7, 0xF9D8, 0xF9D9, 0xF9DA, 0xF9DB, 0xF9DC,
    0xF9DD, 0xF9DE, 0xF9DF, 0xF9E0, 0xF9E1, 0xF9E2, 0xF9E3, 0xF9E4, 0xF9E5, 0xF9E6,
    0xF9E7, 0xF9E8, 0xF9E9, 0xF9EA, 0xF9EB, 0xF9EC, 0xF9ED, 0xF9EE, 0xF9EF, 0xF9F0,
    0xF9F1, 0xF9F2, 0xF9F3, 0xF9F4, 0xF9F5, 0xF9F6, 0xF9F7, 0xF9F8, 0xF9F9, 0xF9FA,
    0xF9FB, 0xF9FC, 0xF9FD, 0xF9FE, 0xF9FF, 0xFA00, 0xFA01, 0xFA02, 0xFA03, 0xFA04,
    0xFA05, 0xFA06, 0xFA07, 0xFA08, 0xFA09, 0xFA0A, 0xFA0B, 0xFA0C, 0xFA0D, 0xFA10,
    0xFA12, 0xFA15, 0xFA16, 0xFA17, 0xFA18, 0xFA19, 0xFA1A, 0xFA1B, 0xFA1C, 0xFA1D,
    0xFA1E, 0xFA20, 0xFA22, 0xFA25, 0xFA26, 0xFA2A, 0xFA2B, 0xFA2C, 0xFA2D, 0xFA2E,
    0xFA2F, 0xFA30, 0xFA31, 0xFA32, 0xFA33, 0xFA34, 0xFA35, 0xFA36, 0xFA37, 0xFA38,
    0xFA39, 0xFA3A, 0xFA3B, 0xFA3C, 0xFA3D, 0xFA3E, 0xFA3F, 0xFA40, 0xFA41, 0xFA42,
    0xFA43, 0xFA44, 0xFA45, 0xFA46, 0xFA47, 0xFA48, 0xFA49, 0xFA4A, 0xFA4B, 0xFA4C,
    0xFA4D, 0xFA4E, 0xFA4F, 0xFA50, 0xFA51, 0xFA52, 0xFA53, 0xFA54, 0xFA55, 0xFA56,
    0xFA57, 0xFA58, 0xFA59, 0xFA5A, 0xFA5B, 0xFA5C, 0xFA5D, 0xFA5E, 0xFA5F, 0xFA60,
    0xFA61, 0xFA62, 0xFA63, 0xFA64, 0xFA65, 0xFA66, 0xFA67, 0xFA68, 0xFA69, 0xFA6A,
    0xFA6B, 0xFA6C, 0xFA6D, 0xFA70, 0xFA71, 0xFA72, 0xFA73, 0xFA74, 0xFA75, 0xFA76,
    0xFA77, 0xFA78, 0xFA79, 0xFA7A, 0xFA7B, 0xFA7C, 0xFA7D, 0xFA7E, 0xFA7F, 0xFA80,
    0xFA81, 0xFA82, 0xFA83, 0xFA84, 0xFA85, 0xFA86, 0xFA87, 0xFA88, 0xFA89, 0xFA8A,
    0xFA8B, 0xFA8C, 0xFA8D, 0xFA8E, 0xFA8F, 0xFA90, 0xFA91, 0xFA92, 0xFA93, 0xFA94,
    0xFA95, 0xFA96, 0xFA97, 0xFA98, 0xFA99, 0xFA9A, 0xFA9B, 0xFA9C, 0xFA9D, 0xFA9E,
    0xFA9F, 0xFAA0, 0xFAA1, 0xFAA2, 0xFAA3, 0xFAA4, 0xFAA5, 0xFAA6, 0xFAA7, 0xFAA8,
    0xFAA9, 0xFAAA, 0xFAAB, 0xFAAC, 0xFAAD, 0xFAAE, 0xFAAF, 0xFAB0, 0xFAB1, 0xFAB2,
    0xFAB3, 0xFAB4, 0xFAB5, 0xFAB6, 0xFAB7, 0xFAB8, 0xFAB9, 0xFABA, 0xFABB, 0xFABC,
    0xFABD, 0xFABE, 0xFABF, 0xFAC0, 0xFAC1, 0xFAC2, 0xFAC3, 0xFAC4, 0xFAC5, 0xFAC6,
    0xFAC7, 0xFAC8, 0xFAC9, 0xFACA, 0xFACB, 0xFACC, 0xFACD, 0xFACE, 0xFACF, 0xFAD0,
    0xFAD1, 0xFAD2, 0xFAD3, 0xFAD4, 0xFAD5, 0xFAD6, 0xFAD7, 0xFAD8, 0xFAD9, 0xFB1D,
    0xFB1F, 0xFB2A, 0xFB2B, 0xFB2C, 0xFB2D, 0xFB2E, 0xFB2F, 0xFB30, 0xFB31, 0xFB32,
    0xFB33, 0xFB34, 0xFB35, 0xFB36, 0xFB38, 0xFB39, 0xFB3A, 0xFB3B, 0xFB3C, 0xFB3E,
    0xFB40, 0xFB41, 0xFB43, 0xFB44, 0xFB46, 0xFB47, 0xFB48, 0xFB49, 0xFB4A, 0xFB4B,
    0xFB4C, 0xFB4D, 0xFB4E, 0x1109A, 0x1109C, 0x110AB, 0x1112E, 0x1112F, 0x1134B, 0x1134C,
    0x114BB, 0x114BC, 0x114BE, 0x115BA, 0x115BB, 0x11938, 0x1D15E, 0x1D15F, 0x1D160, 0x1D161,
    0x1D162, 0x1D163, 0x1D164, 0x1D1BB, 0x1D1BC, 0x1D1BD, 0x1D1BE, 0x1D1BF, 0x1D1C0, 0x2F800,
    0x2F801, 0x2F802, 0x2F803, 0x2F804, 0x2F805, 0x2F806, 0x2F807, 0x2F808, 0x2F809, 0x2F80A,
    0x2F80B, 0x2F80C, 0x2F80D, 0x2F80E, 0x2F80F, 0x2F810, 0x2F811, 0x2F812, 0x2F813, 0x2F814,
    0x2F815, 0x2F816, 0x2F817, 0x2F818, 0x2F819, 0x2F81A, 0x2F81B, 0x2F81C, 0x2F81D, 0x2F81E,
    0x2F81F, 0x2F820, 0x2F821, 0x2F822, 0x2F823, 0x2F824, 0x2F825, 0x2F826, 0x2F827, 0x2F828,
    0x2F829, 0x2F82A, 0x2F82B, 0x2F82C, 0x2F82D, 0x2F82E, 0x2F82F, 0x2F830, 0x2F831, 0x2F832,
    0x2F833, 0x2F834, 0x2F835, 0x2F836, 0x2F837, 0x2F838, 0x2F839, 0x2F83A, 0x2F83B, 0x2F83C,
    0x2F83D, 0x2F83E, 0x2F83F, 0x2F840, 0x2F841, 0x2F842, 0x2F843, 0x2F844, 0x2F845, 0x2F846,
    0x2F847, 0x2F848, 0x2F849, 0x2F84A, 0x2F84B, 0x2F84C, 0x2F84D, 0x2F84E, 0x2F84F, 0x2F850,
    0x2F851, 0x2F852, 0x2F853, 0x2F854, 0x2F855, 0x2F856, 0x2F857, 0x2F858, 0x2F859, 0x2F85A,
    0x2F85B, 0x2F85C, 0x2F85D, 0x2F85E, 0x2F85F, 0x2F860, 0x2F861, 0x2F862, 0x2F863, 0x2F864,
    0x2F865, 0x2F866, 0x2F867, 0x2F868, 0x2F869, 0x2F86A, 0x2F86B, 0x2F86C, 0x2F86D, 0x2F86E,
    0x2F86F, 0x2F870, 0x2F871, 0x2F872, 0x2F873, 0x2F874, 0x2F875, 0x2F876, 0x2F877, 0x2F878,
    0x2F879, 0x2F87A, 0x2F87B, 0x2F87C, 0x2F87D, 0x2F87E, 0x2F87F, 0x2F880, 0x2F881, 0x2F882,
    0x2F883, 0x2F884, 0x2F885, 0x2F886, 0x2F887, 0x2F888, 0x2F889, 0x2F88A, 0x2F88B, 0x2F88C,
    0x2F88D, 0x2F88E, 0x2F88F, 0x2F890, 0x2F891, 0x2F892, 0x2F893, 0x2F894, 0x2F895, 0x2F896,
    0x2F897, 0x2F898, 0x2F899, 0x2F89A, 0x2F89B, 0x2F89C, 0x2F89D, 0x2F89E, 0x2F89F, 0x2F8A0,
    0x2F8A1, 0x2F8A2, 0x2F8A3, 0x2F8A4, 0x2F8A5, 0x2F8A6, 0x2F8A7, 0x2F8A8, 0x2F8A9, 0x2F8AA,
    0x2F8AB, 0x2F8AC, 0x2F8AD, 0x2F8AE, 0x2F8AF, 0x2F8B0, 0x2F8B1, 0x2F8B2, 0x2F8B3, 0x2F8B4,
    0x2F8B5, 0x2F8B6, 0x2F8B7, 0x2F8B8, 0x2F8B9, 0x2F8BA, 0x2F8BB, 0x2F8BC, 0x2F8BD, 0x2F8BE,
    0x2F8BF, 0x2F8C0, 0x2F8C1, 0x2F8C2, 0x2F8C3, 0x2F8C4, 0x2F8C5, 0x2F8C6, 0x2F8C7, 0x2F8C8,
    0x2F8C9, 0x2F8CA, 0x2F8CB, 0x2F8CC, 0x2F8CD, 0x2F8CE, 0x2F8CF, 0x2F8D0, 0x2F8D1, 0x2F8D2,
    0x2F8D3, 0x2F8D4, 0x2F8D5, 0x2F8D6, 0x2F8D7, 0x2F8D8, 0x2F8D9, 0x2F8DA, 0x2F8DB, 0x2F8DC,
    0x2F8DD, 0x2F8DE, 0x2F8DF, 0x2F8E0, 0x2F8E1, 0x2F8E2, 0x2F8E3, 0x2F8E4, 0x2F8E5, 0x2F8E6,
    0x2F8E7, 0x2F8E8, 0x2F8E9, 0x2F8EA, 0x2F8EB, 0x2F8EC, 0x2F8ED, 0x2F8EE, 0x2F8EF, 0x2F8F0,
    0x2F8F1, 0x2F8F2, 0x2F8F3, 0x2F8F4, 0x2F8F5, 0x2F8F6, 0x2F8F7, 0x2F8F8, 0x2F8F9, 0x2F8FA,
    0x2F8FB, 0x2F8FC, 0x2F8FD, 0x2F8FE, 0x2F8FF, 0x2F900, 0x2F901, 0x2F902, 0x2F903, 0x2F904,
    0x2F905, 0x2F906, 0x2F907, 0x2F908, 0x2F909, 0x2F90A, 0x2F90B, 0x2F90C, 0x2F90D, 0x2F90E,
    0x2F90F, 0x2F910, 0x2F911, 0x2F912, 0x2F913, 0x2F914, 0x2F915, 0x2F916, 0x2F917, 0x2F918,
    0x2F919, 0x2F91A, 0x2F91B, 0x2F91C, 0x2F91D, 0x2F91E, 0x2F91F, 0x2F920, 0x2F921, 0x2F922,
    0x2F923, 0x2F924, 0x2F925, 0x2F926, 0x2F927, 0x2F928, 0x2F929, 0x2F92A, 0x2F92B, 0x2F92C,
    0x2F92D, 0x2F92E, 0x2F92F, 0x2F930, 0x2F931, 0x2F932, 0x2F933, 0x2F934, 0x2F935, 0x2F936,
    0x2F937, 0x2F938, 0x2F939, 0x2F93A, 0x2F93B, 0x2F93C, 0x2F93D, 0x2F93E, 0x2F93F, 0x2F940,
    0x2F941, 0x2F942, 0x2F943, 0x2F944, 0x2F945, 0x2F946, 0x2F947, 0x2F948, 0x2F949, 0x2F94A,
    0x2F94B, 0x2F94C, 0x2F94D, 0x2F94E, 0x2F94F, 0x2F950, 0x2F951, 0x2F952, 0x2F953, 0x2F954,
    0x2F955, 0x2F956, 0x2F957, 0x2F958, 0x2F959, 0x2F95A, 0x2F95B, 0x2F95C, 0x2F95D, 0x2F95E,
    0x2F95F, 0x2F960, 0x2F961, 0x2F962, 0x2F963, 0x2F964, 0x2F965, 0x2F966, 0x2F967, 0x2F968,
    0x2F969, 0x2F96A, 0x2F96B, 0x2F96C, 0x2F96D, 0x2F96E, 0x2F96F, 0x2F970, 0x2F971, 0x2F972,
    0x2F973, 0x2F974, 0x2F975, 0x2F976, 0x2F977, 0x2F978, 0x2F979, 0x2F97A, 0x2F97B, 0x2F97C,
    0x2F97D, 0x2F97E, 0x2F97F, 0x2F980, 0x2F981, 0x2F982, 0x2F983, 0x2F984, 0x2F985, 0x2F986,
    0x2F987, 0x2F988, 0x2F989, 0x2F98A, 0x2F98B, 0x2F98C, 0x2F98D, 0x2F98E, 0x2F98F, 0x2F990,
    0x2F991, 0x2F992, 0x2F993, 0x2F994, 0x2F995, 0x2F996, 0x2F997, 0x2F998, 0x2F999, 0x2F99A,
    0x2F99B, 0x2F99C, 0x2F99D, 0x2F99E, 0x2F99F, 0x2F9A0, 0x2F9A1, 0x2F9A2, 0x2F9A3, 0x2F9A4,
    0x2F9A5, 0x2F9A6, 0x2F9A7, 0x2F9A8, 0x2F9A9, 0x2F9AA, 0x2F9AB, 0x2F9AC, 0x2F9AD, 0x2F9AE,
    0x2F9AF, 0x2F9B0, 0x2F9B1, 0x2F9B2, 0x2F9B3, 0x2F9B4, 0x2F9B5, 0x2F9B6, 0x2F9B7, 0x2F9B8,
    0x2F9B9, 0x2F9BA, 0x2F9BB, 0x2F9BC, 0x2F9BD, 0x2F9BE, 0x2F9BF, 0x2F9C0, 0x2F9C1, 0x2F9C2,
    0x2F9C3, 0x2F9C4, 0x2F9C5, 0x2F9C6, 0x2F9C7, 0x2F9C8, 0x2F9C9, 0x2F9CA, 0x2F9CB, 0x2F9CC,
    0x2F9CD, 0x2F9CE, 0x2F9CF, 0x2F9D0, 0x2F9D1, 0x2F9D2, 0x2F9D3, 0x2F9D4, 0x2F9D5, 0x2F9D6,
    0x2F9D7, 0x2F9D8, 0x2F9D9, 0x2F9DA, 0x2F9DB, 0x2F9DC, 0x2F9DD, 0x2F9DE, 0x2F9DF, 0x2F9E0,
];

const CANONICAL_KEYS_2: [u32; 61] = [
    0x2F9E1, 0x2F9E2, 0x2F9E3, 0x2F9E4, 0x2F9E5, 0x2F9E6, 0x2F9E7, 0x2F9E8, 0x2F9E9, 0x2F9EA,
    0x2F9EB, 0x2F9EC, 0x2F9ED, 0x2F9EE, 0x2F9EF, 0x2F9F0, 0x2F9F1, 0x2F9F2, 0x2F9F3, 0x2F9F4,
    0x2F9F5, 0x2F9F6, 0x2F9F7, 0x2F9F8, 0x2F9F9, 0x2F9FA, 0x2F9FB, 0x2F9FC, 0x2F9FD, 0x2F9FE,
    0x2F9FF, 0x2FA00, 0x2FA01, 0x2FA02, 0x2FA03, 0x2FA04, 0x2FA05, 0x2FA06, 0x2FA07, 0x2FA08,
    0x2FA09, 0x2FA0A, 0x2FA0B, 0x2FA0C, 0x2FA0D, 0x2FA0E, 0x2FA0F, 0x2FA10, 0x2FA11, 0x2FA12,
    0x2FA13, 0x2FA14, 0x2FA15, 0x2FA16, 0x2FA17, 0x2FA18, 0x2FA19, 0x2FA1A, 0x2FA1B, 0x2FA1C,
    0x2FA1D,
];

/// Code points with a canonical decomposition.
pub closed spec fn canonical_keys_data() -> Seq<u32> {
    Seq::empty() + CANONICAL_KEYS_0@ + CANONICAL_KEYS_1@ + CANONICAL_KEYS_2@
}

/// The entries of `canonical_keys_data`, in one vector.
pub fn canonical_keys() -> (r: Vec<u32>)
    ensures
        r@ == canonical_keys_data(),
{
    let mut v: Vec<u32> = Vec::new();
    push_all(&mut v, &CANONICAL_KEYS_0);
    push_all(&mut v, &CANONICAL_KEYS_1);
    push_all(&mut v, &CANONICAL_KEYS_2);
    v
}

const CANONICAL_SPANS_0: [(u32, u32); 1000] = [
    (0, 2), (2, 2), (4, 2), (6, 2), (8, 2), (10, 2), (12, 2), (14, 2),
    (16, 2), (18, 2), (20, 2), (22, 2), (24, 2), (26, 2), (28, 2), (30, 2),
    (32, 2), (34, 2), (36, 2), (38, 2), (40, 2), (42, 2), (44, 2), (46, 2),
    (48, 2), (50, 2), (52, 2), (54, 2), (56, 2), (58, 2), (60, 2), (62, 2),
    (64, 2), (66, 2), (68, 2), (70, 2), (72, 2), (74, 2), (76, 2), (78, 2),
    (80, 2), (82, 2), (84, 2), (86, 2), (88, 2), (90, 2), (92, 2), (94, 2),
    (96, 2), (98, 2), (100, 2), (102, 2), (104, 2), (106, 2), (108, 2), (110, 2),
    (112, 2), (114, 2), (116, 2), (118, 2), (120, 2), (122, 2), (124, 2), (126, 2),
    (128, 2), (130, 2), (132, 2), (134, 2), (136, 2), (138, 2), (140, 2), (142, 2),
    (144, 2), (146, 2), (148, 2), (150, 2), (152, 2), (154, 2), (156, 2), (158, 2),
    (160, 2), (162, 2), (164, 2), (166, 2), (168, 2), (170, 2), (172, 2), (174, 2),
    (176, 2), (178, 2), (180, 2), (182, 2), (184, 2), (186, 2), (188, 2), (190, 2),
    (192, 2), (194, 2), (196, 2), (198, 2), (200, 2), (202, 2), (204, 2), (206, 2),
    (208, 2), (210, 2), (212, 2), (214, 2), (216, 2), (218, 2), (220, 2), (222, 2),
    (224, 2), (226, 2), (228, 2), (230, 2), (232, 2), (234, 2), (236, 2), (238, 2),
    (240, 2), (242, 2), (244, 2), (246, 2), (248, 2), (250, 2), (252, 2), (254, 2),
    (256, 2), (258, 2), (260, 2), (262, 2), (264, 2), (266, 2), (268, 2), (270, 2),
    (272, 2), (274, 2), (276, 2), (278, 2), (280, 2), (282, 2), (284, 2), (286, 2),
    (288, 2), (290, 2), (292, 2), (294, 2), (296, 2), (298, 2), (300, 2), (302, 2),
    (304, 2), (306, 2), (308, 2), (310, 2), (312, 2), (314, 2), (316, 2), (318, 2),
    (320, 2), (322, 2), (324, 2), (326, 2), (328, 2), (330, 2), (332, 2), (334, 2),
    (336, 2), (338, 2), (340, 2), (342, 2), (344, 2), (346, 2), (348, 2), (350, 2),
    (352, 2), (354, 2), (356, 2), (358, 2), (360, 2), (362, 2), (364, 2), (366, 2),
    (368, 2), (370, 2), (372, 2), (374, 2), (376, 2), (378, 2), (380, 2), (382, 2),
    (384, 2), (386, 2), (388, 2), (390, 2), (392, 2), (394, 2), (396, 2), (398, 2),
    (400, 2), (402, 2), (404, 2), (406, 2), (408, 2), (410, 2), (412, 2), (414, 2),
    (416, 2), (418, 2), (420, 2), (422, 2), (424, 2), (426, 2), (428, 2), (430, 2),
    (432, 2), (434, 2), (436, 2), (438, 2), (440, 2), (442, 2), (444, 2), (446, 2),
    (448, 2), (450, 2), (452, 2), (454, 2), (456, 2), (458, 2), (460, 2), (462, 2),
    (464, 2), (466, 2), (468, 2), (470, 2), (472, 2), (474, 2), (476, 2), (478, 2),
    (480, 2), (482, 2), (484, 2), (486, 2), (488, 2), (490, 2), (492, 2), (494, 2),
    (496, 2), (498, 2), (500, 2), (502, 2), (504, 1), (505, 1), (506, 1), (507, 2),
    (509, 1), (510, 1), (511, 2), (513, 2), (515, 1), (516, 2), (518, 2), (520, 2),
    (522, 2), (524, 2), (526, 2), (528, 2), (530, 2), (532, 2), (534, 2), (536, 2),
    (538, 2), (540, 2), (542, 2), (544, 2), (546, 2), (548, 2), (550, 2), (552, 2),
    (554, 2), (556, 2), (558, 2), (560, 2), (562, 2), (564, 2), (566, 2), (568, 2),
    (570, 2), (572, 2), (574, 2), (576, 2), (578, 2), (580, 2), (582, 2), (584, 2),
    (586, 2), (588, 2), (590, 2), (592, 2), (594, 2), (596, 2), (598, 2), (600, 2),
    (602, 2), (604, 2), (606, 2), (608, 2), (610, 2), (612, 2), (614, 2), (616, 2),
    (618, 2), (620, 2), (622, 2), (624, 2), (626, 2), (628, 2), (630, 2), (632, 2),
    (634, 2), (636, 2), (638, 2), (640, 2), (642, 2), (644, 2), (646, 2), (648, 2),
    (650, 2), (652, 2), (654, 2), (656, 2), (658, 2), (660, 2), (662, 2), (664, 2),
    (666, 2), (668, 2), (670, 2), (672, 2), (674, 2), (676, 2), (678, 2), (680, 2),
    (682, 2), (684, 2), (686, 2), (688, 2), (690, 2), (692, 2), (694, 2), (696, 2),
    (698, 2), (700, 2), (702, 2), (704, 2), (706, 2), (708, 2), (710, 2), (712, 2),
    (714, 2), (716, 2), (718, 2), (720, 2), (722, 2), (724, 2), (726, 2), (728, 2),
    (730, 2), (732, 2), (734, 2), (736, 2), (738, 2), (740, 2), (742, 2), (744, 2),
    (746, 2), (748, 2), (750, 2), (752, 2), (754, 2), (756, 2), (758, 2), (760, 2),
    (762, 2), (764, 2), (766, 2), (768, 2), (770, 2), (772, 2), (774, 2), (776, 2),
    (778, 2), (780, 2), (782, 2), (784, 2), (786, 2), (788, 2), (790, 2), (792, 2),
    (794, 2), (796, 2), (798, 2), (800, 2), (802, 2), (804, 2), (806, 2), (808, 2),
    (810, 2), (812, 2), (814, 2), (816, 2), (818, 2), (820, 2), (822, 2), (824, 2),
    (826, 2), (828, 2), (830, 2), (832, 2), (834, 2), (836, 2), (838, 2), (840, 2),
    (842, 2), (844, 2), (846, 2), (848, 2), (850, 2), (852, 2), (854, 2), (856, 2),
    (858, 2), (860, 2), (862, 2), (864, 2), (866, 2), (868, 2), (870, 2), (872, 2),
    (874, 2), (876, 2), (878, 2), (880, 2), (882, 2), (884, 2), (886, 2), (888, 2),
    (890, 2), (892, 2), (894, 2), (896, 2), (898, 2), (900, 2), (902, 2), (904, 2),
    (906, 2), (908, 2), (910, 2), (912, 2), (914, 2), (916, 2), (918, 2), (920, 2),
    (922, 2), (924, 2), (926, 2), (928, 2), (930, 2), (932, 2), (934, 2), (936, 2),
    (938, 2), (940, 2), (942, 2), (944, 2), (946, 2), (948, 2), (950, 2), (952, 2),
    (954, 2), (956, 2), (958, 2), (960, 2), (962, 2), (964, 2), (966, 2), (968, 2),
    (970, 2), (972, 2), (974, 2), (976, 2), (978, 2), (980, 2), (982, 2), (984, 2),
    (986, 2), (988, 2), (990, 2), (992, 2), (994, 2), (996, 2), (998, 2), (1000, 2),
    (1002, 2), (1004, 2), (1006, 2), (1008, 2), (1010, 2), (1012, 2), (1014, 2), (1016, 2),
    (1018, 2), (1020, 2), (1022, 2), (1024, 2), (1026, 2), (1028, 2), (1030, 2), (1032, 2),
    (1034, 2), (1036, 2), (1038, 2), (1040, 2), (1042, 2), (1044, 2), (1046, 2), (1048, 2),
    (1050, 2), (1052, 2), (1054, 2), (1056, 2), (1058, 2), (1060, 2), (1062, 2), (1064, 2),
    (1066, 2), (1068, 2), (1070, 2), (1072, 2), (1074, 2), (1076, 2), (1078, 2), (1080, 2),
    (1082, 2), (1084, 2), (1086, 2), (1088, 2), (1090, 2), (1092, 2), (1094, 2), (1096, 2),
    (1098, 2), (1100, 2), (1102, 2), (1104, 2), (1106, 2), (1108, 2), (1110, 2), (1112, 2),
    (1114, 2), (1116, 2), (1118, 2), (1120, 2), (1122, 2), (1124, 2), (1126, 2), (1128, 2),
    (1130, 2), (1132, 2), (1134, 2), (1136, 2), (1138, 2), (1140, 2), (1142, 2), (1144, 2),
    (1146, 2), (1148, 2), (1150, 2), (1152, 2), (1154, 2), (1156, 2), (1158, 2), (1160, 2),
    (1162, 2), (1164, 2), (1166, 2), (1168, 2), (1170, 2), (1172, 2), (1174, 2), (1176, 2),
    (1178, 2), (1180, 2), (1182, 2), (1184, 2), (1186, 2), (1188, 2), (1190, 2), (1192, 2),
    (1194, 2), (1196, 2), (1198, 2), (1200, 2), (1202, 2), (1204, 2), (1206, 2), (1208, 2),
    (1210, 2), (1212, 2), (1214, 2), (1216, 2), (1218, 2), (1220, 2), (1222, 2), (1224, 2),
    (1226, 2), (1228, 2), (1230, 2), (1232, 2), (1234, 2), (1236, 2), (1238, 2), (1240, 2),
    (1242, 2), (1244, 2), (1246, 2), (1248, 2), (1250, 2), (1252, 2), (1254, 2), (1256, 2),
    (1258, 2), (1260, 2), (1262, 2), (1264, 2), (1266, 2), (1268, 2), (1270, 2), (1272, 2),
    (1274, 2), (1276, 2), (1278, 2), (1280, 2), (1282, 2), (1284, 2), (1286, 2), (1288, 2),
    (1290, 2), (1292, 2), (1294, 2), (1296, 2), (1298, 2), (1300, 2), (1302, 2), (1304, 2),
    (1306, 2), (1308, 2), (1310, 2), (1312, 2), (1314, 2), (1316, 2), (1318, 2), (1320, 2),
    (1322, 2), (1324, 2), (1326, 2), (1328, 2), (1330, 2), (1332, 2), (1334, 2), (1336, 2),
    (1338, 2), (1340, 2), (1342, 2), (1344, 2), (1346, 2), (1348, 2), (1350, 2), (1352, 2),
    (1354, 2), (1356, 2), (1358, 2), (1360, 2), (1362, 2), (1364, 2), (1366, 2), (1368, 2),
    (1370, 2), (1372, 2), (1374, 2), (1376, 2), (1378, 2), (1380, 2), (1382, 2), (1384, 2),
    (1386, 2), (1388, 2), (1390, 2), (1392, 2), (1394, 2), (1396, 2), (1398, 2), (1400, 2),
    (1402, 2), (1404, 2), (1406, 2), (1408, 2), (1410, 2), (1412, 2), (1414, 2), (1416, 2),
    (1418, 2), (1420, 2), (1422, 2), (1424, 2), (1426, 2), (1428, 2), (1430, 2), (1432, 2),
    (1434, 2), (1436, 2), (1438, 2), (1440, 2), (1442, 2), (1444, 2), (1446, 2), (1448, 2),
    (1450, 2), (1452, 2), (1454, 2), (1456, 2), (1458, 2), (1460, 2), (1462, 2), (1464, 2),
    (1466, 2), (1468, 2), (1470, 2), (1472, 2), (1474, 2), (1476, 2), (1478, 2), (1480, 2),
    (1482, 2), (1484, 2), (1486, 2), (1488, 2), (1490, 2), (1492, 2), (1494, 2), (1496, 2),
    (1498, 2), (1500, 2), (1502, 2), (1504, 2), (1506, 2), (1508, 2), (1510, 2), (1512, 2),
    (1514, 2), (1516, 1), (1517, 2), (1519, 1), (1520, 2), (1522, 1), (1523, 2), (1525, 1),
    (1526, 2), (1528, 1), (1529, 2), (1531, 1), (1532, 2), (1534, 1), (1535, 2), (1537, 2),
    (1539, 2), (1541, 2), (1543, 2), (1545, 2), (1547, 2), (1549, 2), (1551, 2), (1553, 2),
    (1555, 2), (1557, 2), (1559, 2), (1561, 2), (1563, 2), (1565, 2), (1567, 2), (1569, 2),
    (1571, 2), (1573, 2), (1575, 2), (1577, 2), (1579, 2), (1581, 2), (1583, 2), (1585, 2),
    (1587, 2), (1589, 2), (1591, 2), (1593, 2), (1595, 2), (1597, 2), (1599, 2), (1601, 2),
    (1603, 2), (1605, 2), (1607, 2), (1609, 2), (1611, 2), (1613, 2), (1615, 2), (1617, 2),
    (1619, 2), (1621, 2), (1623, 2), (1625, 2), (1627, 2), (1629, 2), (1631, 2), (1633, 2),
    (1635, 2), (1637, 2), (1639, 2), (1641, 2), (1643, 2), (1645, 2), (1647, 2), (1649, 2),
    (1651, 1), (1652, 2), (1654, 1), (1655, 2), (1657, 2), (1659, 2), (1661, 2), (1663, 2),
    (1665, 2), (1667, 2), (1669, 1), (1670, 2), (1672, 1), (1673, 2), (1675, 2), (1677, 2),
    (1679, 2), (1681, 2), (1683, 2), (1685, 2), (1687, 1), (1688, 2), (1690, 2), (1692, 2),
    (1694, 2), (1696, 2), (1698, 1), (1699, 2), (1701, 2), (1703, 2), (1705, 2), (1707, 2),
    (1709, 2), (1711, 1), (1712, 2), (1714, 2), (1716, 2), (1718, 2), (1720, 2), (1722, 2),
    (1724, 2), (1726, 1), (1727, 2), (1729, 2), (1731, 1), (1732, 1), (1733, 2), (1735, 2),
    (1737, 2), (1739, 2), (1741, 2), (1743, 2), (1745, 1), (1746, 2), (1748, 1), (1749, 2),
    (1751, 1), (1752, 1), (1753, 1), (1754, 1), (1755, 1), (1756, 1), (1757, 2), (1759, 2),
    (1761, 2), (1763, 2), (1765, 2), (1767, 2), (1769, 2), (1771, 2), (1773, 2), (1775, 2),
    (1777, 2), (1779, 2), (1781, 2), (1783, 2), (1785, 2), (1787, 2), (1789, 2), (1791, 2),
    (1793, 2), (1795, 2), (1797, 2), (1799, 2), (1801, 2), (1803, 2), (1805, 2), (1807, 2),
    (1809, 2), (1811, 2), (1813, 2), (1815, 2), (1817, 2), (1819, 2), (1821, 2), (1823, 2),
    (1825, 2), (1827, 2), (1829, 2), (1831, 2), (1833, 2), (1835, 2), (1837, 2), (1839, 2),
    (1841, 2), (1843, 2), (1845, 1), (1846, 1), (1847, 2), (1849, 2), (1851, 2), (1853, 2),
    (1855, 2), (1857, 2), (1859, 2), (1861, 2), (1863, 2), (1865, 2), (1867, 2), (1869, 2),
    (1871, 2), (1873, 2), (1875, 2), (1877, 2), (1879, 2), (1881, 2), (1883, 2), (1885, 2),
    (1887, 2), (1889, 2), (1891, 2), (1893, 2), (1895, 2), (1897, 2), (1899, 2), (1901, 2),
    (1903, 2), (1905, 2), (1907, 2), (1909, 2), (1911, 2), (1913, 2), (1915, 2), (1917, 2),
    (1919, 2), (1921, 2), (1923, 2), (1925, 2), (1927, 2), (1929, 2), (1931, 2), (1933, 2),
    (1935, 2), (1937, 2), (1939, 2), (1941, 2), (1943, 2), (1945, 2), (1947, 2), (1949, 2),
    (1951, 2), (1953, 2), (1955, 2), (1957, 2), (1959, 2), (1961, 2), (1963, 2), (1965, 1),
];

const CANONICAL_SPANS_1: [(u32, u32); 1000] = [
    (1966, 1), (1967, 1), (1968, 1), (1969, 1), (1970, 1), (1971, 1), (1972, 1), (1973, 1),
    (1974, 1), (1975, 1), (1976, 1), (1977, 1), (1978, 1), (1979, 1), (1980, 1), (1981, 1),
    (1982, 1), (1983, 1), (1984, 1), (1985, 1), (1986, 1), (1987, 1), (1988, 1), (1989, 1),
    (1990, 1), (1991, 1), (1992, 1), (1993, 1), (1994, 1), (1995, 1), (1996, 1), (1997, 1),
    (1998, 1), (1999, 1), (2000, 1), (2001, 1), (2002, 1), (2003, 1), (2004, 1), (2005, 1),
    (2006, 1), (2007, 1), (2008, 1), (2009, 1), (2010, 1), (2011, 1), (2012, 1), (2013, 1),
    (2014, 1), (2015, 1), (2016, 1), (2017, 1), (2018, 1), (2019, 1), (2020, 1), (2021, 1),
    (2022, 1), (2023, 1), (2024, 1), (2025, 1), (2026, 1), (2027, 1), (2028, 1), (2029, 1),
    (2030, 1), (2031, 1), (2032, 1), (2033, 1), (2034, 1), (2035, 1), (2036, 1), (2037, 1),
    (2038, 1), (2039, 1), (2040, 1), (2041, 1), (2042, 1), (2043, 1), (2044, 1), (2045, 1),
    (2046, 1), (2047, 1), (2048, 1), (2049, 1), (2050, 1), (2051, 1), (2052, 1), (2053, 1),
    (2054, 1), (2055, 1), (2056, 1), (2057, 1), (2058, 1), (2059, 1), (2060, 1), (2061, 1),
    (2062, 1), (2063, 1), (2064, 1), (2065, 1), (2066, 1), (2067, 1), (2068, 1), (2069, 1),
    (2070, 1), (2071, 1), (2072, 1), (2073, 1), (2074, 1), (2075, 1), (2076, 1), (2077, 1),
    (2078, 1), (2079, 1), (2080, 1), (2081, 1), (2082, 1), (2083, 1), (2084, 1), (2085, 1),
    (2086, 1), (2087, 1), (2088, 1), (2089, 1), (2090, 1), (2091, 1), (2092, 1), (2093, 1),
    (2094, 1), (2095, 1), (2096, 1), (2097, 1), (2098, 1), (2099, 1), (2100, 1), (2101, 1),
    (2102, 1), (2103, 1), (2104, 1), (2105, 1), (2106, 1), (2107, 1), (2108, 1), (2109, 1),
    (2110, 1), (2111, 1), (2112, 1), (2113, 1), (2114, 1), (2115, 1), (2116, 1), (2117, 1),
    (2118, 1), (2119, 1), (2120, 1), (2121, 1), (2122, 1), (2123, 1), (2124, 1), (2125, 1),
    (2126, 1), (2127, 1), (2128, 1), (2129, 1), (2130, 1), (2131, 1), (2132, 1), (2133, 1),
    (2134, 1), (2135, 1), (2136, 1), (2137, 1), (2138, 1), (2139, 1), (2140, 1), (2141, 1),
    (2142, 1), (2143, 1), (2144, 1), (2145, 1), (2146, 1), (2147, 1), (2148, 1), (2149, 1),
    (2150, 1), (2151, 1), (2152, 1), (2153, 1), (2154, 1), (2155, 1), (2156, 1), (2157, 1),
    (2158, 1), (2159, 1), (2160, 1), (2161, 1), (2162, 1), (2163, 1), (2164, 1), (2165, 1),
    (2166, 1), (2167, 1), (2168, 1), (2169, 1), (2170, 1), (2171, 1), (2172, 1), (2173, 1),
    (2174, 1), (2175, 1), (2176, 1), (2177, 1), (2178, 1), (2179, 1), (2180, 1), (2181, 1),
    (2182, 1), (2183, 1), (2184, 1), (2185, 1), (2186, 1), (2187, 1), (2188, 1), (2189, 1),
    (2190, 1), (2191, 1), (2192, 1), (2193, 1), (2194, 1), (2195, 1), (2196, 1), (2197, 1),
    (2198, 1), (2199, 1), (2200, 1), (2201, 1), (2202, 1), (2203, 1), (2204, 1), (2205, 1),
    (2206, 1), (2207, 1), (2208, 1), (2209, 1), (2210, 1), (2211, 1), (2212, 1), (2213, 1),
    (2214, 1), (2215, 1), (2216, 1), (2217, 1), (2218, 1), (2219, 1), (2220, 1), (2221, 1),
    (2222, 1), (2223, 1), (2224, 1), (2225, 1), (2226, 1), (2227, 1), (2228, 1), (2229, 1),
    (2230, 1), (2231, 1), (2232, 1), (2233, 1), (2234, 1), (2235, 1), (2236, 1), (2237, 1),
    (2238, 1), (2239, 1), (2240, 1), (2241, 1), (2242, 1), (2243, 1), (2244, 1), (2245, 1),
    (2246, 1), (2247, 1), (2248, 1), (2249, 1), (2250, 1), (2251, 1), (2252, 1), (2253, 1),
    (2254, 1), (2255, 1), (2256, 1), (2257, 1), (2258, 1), (2259, 1), (2260, 1), (2261, 1),
    (2262, 1), (2263, 1), (2264, 1), (2265, 1), (2266, 1), (2267, 1), (2268, 1), (2269, 1),
    (2270, 1), (2271, 1), (2272, 1), (2273, 1), (2274, 1), (2275, 1), (2276, 1), (2277, 1),
    (2278, 1), (2279, 1), (2280, 1), (2281, 1), (2282, 1), (2283, 1), (2284, 1), (2285, 1),
    (2286, 1), (2287, 1), (2288, 1), (2289, 1), (2290, 1), (2291, 1), (2292, 1), (2293, 1),
    (2294, 1), (2295, 1), (2296, 1), (2297, 1), (2298, 1), (2299, 1), (2300, 1), (2301, 1),
    (2302, 1), (2303, 1), (2304, 1), (2305, 1), (2306, 1), (2307, 1), (2308, 1), (2309, 1),
    (2310, 1), (2311, 1), (2312, 1), (2313, 1), (2314, 1), (2315, 1), (2316, 1), (2317, 1),
    (2318, 1), (2319, 1), (2320, 1), (2321, 1), (2322, 1), (2323, 1), (2324, 1), (2325, 1),
    (2326, 1), (2327, 1), (2328, 1), (2329, 1), (2330, 1), (2331, 1), (2332, 1), (2333, 1),
    (2334, 1), (2335, 1), (2336, 1), (2337, 1), (2338, 1), (2339, 1), (2340, 1), (2341, 1),
    (2342, 1), (2343, 1), (2344, 1), (2345, 1), (2346, 1), (2347, 1), (2348, 1), (2349, 1),
    (2350, 1), (2351, 1), (2352, 1), (2353, 1), (2354, 1), (2355, 1), (2356, 1), (2357, 1),
    (2358, 1), (2359, 1), (2360, 1), (2361, 1), (2362, 1), (2363, 1), (2364, 1), (2365, 1),
    (2366, 1), (2367, 1), (2368, 1), (2369, 1), (2370, 1), (2371, 1), (2372, 1), (2373, 1),
    (2374, 1), (2375, 1), (2376, 1), (2377, 1), (2378, 1), (2379, 1), (2380, 1), (2381, 1),
    (2382, 1), (2383, 1), (2384, 1), (2385, 1), (2386, 1), (2387, 1), (2388, 1), (2389, 1),
    (2390, 1), (2391, 1), (2392, 1), (2393, 1), (2394, 1), (2395, 1), (2396, 1), (2397, 1),
    (2398, 1), (2399, 1), (2400, 1), (2401, 1), (2402, 1), (2403, 1), (2404, 1), (2405, 1),
    (2406, 1), (2407, 1), (2408, 1), (2409, 1), (2410, 1), (2411, 1), (2412, 1), (2413, 1),
    (2414, 1), (2415, 1), (2416, 1), (2417, 1), (2418, 1), (2419, 1), (2420, 1), (2421, 1),
    (2422, 1), (2423, 1), (2424, 1), (2425, 2), (2427, 2), (2429, 2), (2431, 2), (2433, 2),
    (2435, 2), (2437, 2), (2439, 2), (2441, 2), (2443, 2), (2445, 2), (2447, 2), (2449, 2),
    (2451, 2), (2453, 2), (2455, 2), (2457, 2), (2459, 2), (2461, 2), (2463, 2), (2465, 2),
    (2467, 2), (2469, 2), (2471, 2), (2473, 2), (2475, 2), (2477, 2), (2479, 2), (2481, 2),
    (2483, 2), (2485, 2), (2487, 2), (2489, 2), (2491, 2), (2493, 2), (2495, 2), (2497, 2),
    (2499, 2), (2501, 2), (2503, 2), (2505, 2), (2507, 2), (2509, 2), (2511, 2), (2513, 2),
    (2515, 2), (2517, 2), (2519, 2), (2521, 2), (2523, 2), (2525, 2), (2527, 2), (2529, 2),
    (2531, 2), (2533, 2), (2535, 2), (2537, 2), (2539, 2), (2541, 2), (2543, 2), (2545, 1),
    (2546, 1), (2547, 1), (2548, 1), (2549, 1), (2550, 1), (2551, 1), (2552, 1), (2553, 1),
    (2554, 1), (2555, 1), (2556, 1), (2557, 1), (2558, 1), (2559, 1), (2560, 1), (2561, 1),
    (2562, 1), (2563, 1), (2564, 1), (2565, 1), (2566, 1), (2567, 1), (2568, 1), (2569, 1),
    (2570, 1), (2571, 1), (2572, 1), (2573, 1), (2574, 1), (2575, 1), (2576, 1), (2577, 1),
    (2578, 1), (2579, 1), (2580, 1), (2581, 1), (2582, 1), (2583, 1), (2584, 1), (2585, 1),
    (2586, 1), (2587, 1), (2588, 1), (2589, 1), (2590, 1), (2591, 1), (2592, 1), (2593, 1),
    (2594, 1), (2595, 1), (2596, 1), (2597, 1), (2598, 1), (2599, 1), (2600, 1), (2601, 1),
    (2602, 1), (2603, 1), (2604, 1), (2605, 1), (2606, 1), (2607, 1), (2608, 1), (2609, 1),
    (2610, 1), (2611, 1), (2612, 1), (2613, 1), (2614, 1), (2615, 1), (2616, 1), (2617, 1),
    (2618, 1), (2619, 1), (2620, 1), (2621, 1), (2622, 1), (2623, 1), (2624, 1), (2625, 1),
    (2626, 1), (2627, 1), (2628, 1), (2629, 1), (2630, 1), (2631, 1), (2632, 1), (2633, 1),
    (2634, 1), (2635, 1), (2636, 1), (2637, 1), (2638, 1), (2639, 1), (2640, 1), (2641, 1),
    (2642, 1), (2643, 1), (2644, 1), (2645, 1), (2646, 1), (2647, 1), (2648, 1), (2649, 1),
    (2650, 1), (2651, 1), (2652, 1), (2653, 1), (2654, 1), (2655, 1), (2656, 1), (2657, 1),
    (2658, 1), (2659, 1), (2660, 1), (2661, 1), (2662, 1), (2663, 1), (2664, 1), (2665, 1),
    (2666, 1), (2667, 1), (2668, 1), (2669, 1), (2670, 1), (2671, 1), (2672, 1), (2673, 1),
    (2674, 1), (2675, 1), (2676, 1), (2677, 1), (2678, 1), (2679, 1), (2680, 1), (2681, 1),
    (2682, 1), (2683, 1), (2684, 1), (2685, 1), (2686, 1), (2687, 1), (2688, 1), (2689, 1),
    (2690, 1), (2691, 1), (2692, 1), (2693, 1), (2694, 1), (2695, 1), (2696, 1), (2697, 1),
    (2698, 1), (2699, 1), (2700, 1), (2701, 1), (2702, 1), (2703, 1), (2704, 1), (2705, 1),
    (2706, 1), (2707, 1), (2708, 1), (2709, 1), (2710, 1), (2711, 1), (2712, 1), (2713, 1),
    (2714, 1), (2715, 1), (2716, 1), (2717, 1), (2718, 1), (2719, 1), (2720, 1), (2721, 1),
    (2722, 1), (2723, 1), (2724, 1), (2725, 1), (2726, 1), (2727, 1), (2728, 1), (2729, 1),
    (2730, 1), (2731, 1), (2732, 1), (2733, 1), (2734, 1), (2735, 1), (2736, 1), (2737, 1),
    (2738, 1), (2739, 1), (2740, 1), (2741, 1), (2742, 1), (2743, 1), (2744, 1), (2745, 1),
    (2746, 1), (2747, 1), (2748, 1), (2749, 1), (2750, 1), (2751, 1), (2752, 1), (2753, 1),
    (2754, 1), (2755, 1), (2756, 1), (2757, 1), (2758, 1), (2759, 1), (2760, 1), (2761, 1),
    (2762, 1), (2763, 1), (2764, 1), (2765, 1), (2766, 1), (2767, 1), (2768, 1), (2769, 1),
    (2770, 1), (2771, 1), (2772, 1), (2773, 1), (2774, 1), (2775, 1), (2776, 1), (2777, 1),
    (2778, 1), (2779, 1), (2780, 1), (2781, 1), (2782, 1), (2783, 1), (2784, 1), (2785, 1),
    (2786, 1), (2787, 1), (2788, 1), (2789, 1), (2790, 1), (2791, 1), (2792, 1), (2793, 1),
    (2794, 1), (2795, 1), (2796, 1), (2797, 1), (2798, 1), (2799, 1), (2800, 1), (2801, 1),
    (2802, 1), (2803, 1), (2804, 1), (2805, 1), (2806, 1), (2807, 1), (2808, 1), (2809, 1),
    (2810, 1), (2811, 1), (2812, 1), (2813, 1), (2814, 1), (2815, 1), (2816, 1), (2817, 1),
    (2818, 1), (2819, 1), (2820, 1), (2821, 1), (2822, 1), (2823, 1), (2824, 1), (2825, 1),
    (2826, 1), (2827, 1), (2828, 1), (2829, 1), (2830, 1), (2831, 1), (2832, 1), (2833, 1),
    (2834, 1), (2835, 1), (2836, 1), (2837, 1), (2838, 1), (2839, 1), (2840, 1), (2841, 1),
    (2842, 1), (2843, 1), (2844, 1), (2845, 1), (2846, 1), (2847, 1), (2848, 1), (2849, 1),
    (2850, 1), (2851, 1), (2852, 1), (2853, 1), (2854, 1), (2855, 1), (2856, 1), (2857, 1),
    (2858, 1), (2859, 1), (2860, 1), (2861, 1), (2862, 1), (2863, 1), (2864, 1), (2865, 1),
    (2866, 1), (2867, 1), (2868, 1), (2869, 1), (2870, 1), (2871, 1), (2872, 1), (2873, 1),
    (2874, 1), (2875, 1), (2876, 1), (2877, 1), (2878, 1), (2879, 1), (2880, 1), (2881, 1),
    (2882, 1), (2883, 1), (2884, 1), (2885, 1), (2886, 1), (2887, 1), (2888, 1), (2889, 1),
    (2890, 1), (2891, 1), (2892, 1), (2893, 1), (2894, 1), (2895, 1), (2896, 1), (2897, 1),
    (2898, 1), (2899, 1), (2900, 1), (2901, 1), (2902, 1), (2903, 1), (2904, 1), (2905, 1),
    (2906, 1), (2907, 1), (2908, 1), (2909, 1), (2910, 1), (2911, 1), (2912, 1), (2913, 1),
    (2914, 1), (2915, 1), (2916, 1), (2917, 1), (2918, 1), (2919, 1), (2920, 1), (2921, 1),
    (2922, 1), (2923, 1), (2924, 1), (2925, 1), (2926, 1), (2927, 1), (2928, 1), (2929, 1),
    (2930, 1), (2931, 1), (2932, 1), (2933, 1), (2934, 1), (2935, 1), (2936, 1), (2937, 1),
    (2938, 1), (2939, 1), (2940, 1), (2941, 1), (2942, 1), (2943, 1), (2944, 1), (2945, 1),
    (2946, 1), (2947, 1), (2948, 1), (2949, 1), (2950, 1), (2951, 1), (2952, 1), (2953, 1),
    (2954, 1), (2955, 1), (2956, 1), (2957, 1), (2958, 1), (2959, 1), (2960, 1), (2961, 1),
    (2962, 1), (2963, 1), (2964, 1), (2965, 1), (2966, 1), (2967, 1), (2968, 1), (2969, 1),
    (2970, 1), (2971, 1), (2972, 1), (2973, 1), (2974, 1), (2975, 1), (2976, 1), (2977, 1),
    (2978, 1), (2979, 1), (2980, 1), (2981, 1), (2982, 1), (2983, 1), (2984, 1), (2985, 1),
    (2986, 1), (2987, 1), (2988, 1), (2989, 1), (2990, 1), (2991, 1), (2992, 1), (2993, 1),
    (2994, 1), (2995, 1), (2996, 1), (2997, 1), (2998, 1), (2999, 1), (3000, 1), (3001, 1),
    (3002, 1), (3003, 1), (3004, 1), (3005, 1), (3006, 1), (3007, 1), (3008, 1), (3009, 1),
    (3010, 1), (3011, 1), (3012, 1), (3013, 1), (3014, 1), (3015, 1), (3016, 1), (3017, 1),
    (3018, 1), (3019, 1), (3020, 1), (3021, 1), (3022, 1), (3023, 1), (3024, 1), (3025, 1),
];

const CANONICAL_SPANS_2: [(u32, u32); 61] = [
    (3026, 1), (3027, 1), (3028, 1), (3029, 1), (3030, 1), (3031, 1), (3032, 1), (3033, 1),
    (3034, 1), (3035, 1), (3036, 1), (3037, 1), (3038, 1), (3039, 1), (3040, 1), (3041, 1),
    (3042, 1), (3043, 1), (3044, 1), (3045, 1), (3046, 1), (3047, 1), (3048, 1), (3049, 1),
    (3050, 1), (3051, 1), (3052, 1), (3053, 1), (3054, 1), (3055, 1), (3056, 1), (3057, 1),
    (3058, 1), (3059, 1), (3060, 1), (3061, 1), (3062, 1), (3063, 1), (3064, 1), (3065, 1),
    (3066, 1), (3067, 1), (3068, 1), (3069, 1), (3070, 1), (3071, 1), (3072, 1), (3073, 1),
    (3074, 1), (3075, 1), (3076, 1), (3077, 1), (3078, 1), (3079, 1), (3080, 1), (3081, 1),
    (3082, 1), (3083, 1), (3084, 1), (3085, 1), (3086, 1),
];

/// Offset and length in `canonical_pool_data` of each decomposition of `canonical_keys_data`.
pub closed spec fn canonical_spans_data() -> Seq<(u32, u32)> {
    Seq::empty() + CANONICAL_SPANS_0@ + CANONICAL_SPANS_1@ + CANONICAL_SPANS_2@
}

/// The entries of `canonical_spans_data`, in one vector.
pub fn canonical_spans() -> (r: Vec<(u32, u32)>)
    ensures
        r@ == canonical_spans_data(),
{
    let mut v: Vec<(u32, u32)> = Vec::new();
    push_all(&mut v, &CANONICAL_SPANS_0);
    push_all(&mut v, &CANONICAL_SPANS_1);
    push_all(&mut v, &CANONICAL_SPANS_2);
    v
}

const CANONICAL_POOL_0: [u32; 1000] = [
    0x0041, 0x0300, 0x0041, 0x0301, 0x0041, 0x0302, 0x0041, 0x0303, 0x0041, 0x0308,
    0x0041, 0x030A, 0x0043, 0x0327, 0x0045, 0x0300, 0x0045, 0x0301, 0x0045, 0x0302,
    0x0045, 0x0308, 0x0049, 0x0300, 0x0049, 0x0301, 0x0049, 0x0302, 0x0049, 0x0308,
    0x004E, 0x0303, 0x004F, 0x0300, 0x004F, 0x0301, 0x004F, 0x0302, 0x004F, 0x0303,
    0x004F, 0x0308, 0x0055, 0x0300, 0x0055, 0x0301, 0x0055, 0x0302, 0x0055, 0x0308,
    0x0059, 0x0301, 0x0061, 0x0300, 0x0061, 0x0301, 0x0061, 0x0302, 0x0061, 0x0303,
    0x0061, 0x0308, 0x0061, 0x030A, 0x0063, 0x0327, 0x0065, 0x0300, 0x0065, 0x0301,
    0x0065, 0x0302, 0x0065, 0x0308, 0x0069, 0x0300, 0x0069, 0x0301, 0x0069, 0x0302,
    0x0069, 0x0308, 0x006E, 0x0303, 0x006F, 0x0300, 0x006F, 0x0301, 0x006F, 0x0302,
    0x006F, 0x0303, 0x006F, 0x0308, 0x0075, 0x0300, 0x0075, 0x0301, 0x0075, 0x0302,
    0x0075, 0x0308, 0x0079, 0x0301, 0x0079, 0x0308, 0x0041, 0x0304, 0x0061, 0x0304,
    0x0041, 0x0306, 0x0061, 0x0306, 0x0041, 0x0328, 0x0061, 0x0328, 0x0043, 0x0301,
    0x0063, 0x0301, 0x0043, 0x0302, 0x0063, 0x0302, 0x0043, 0x0307, 0x0063, 0x0307,
    0x0043, 0x030C, 0x0063, 0x030C, 0x0044, 0x030C, 0x0064, 0x030C, 0x0045, 0x0304,
    0x0065, 0x0304, 0x0045, 0x0306, 0x0065, 0x0306, 0x0045, 0x0307, 0x0065, 0x0307,
    0x0045, 0x0328, 0x0065, 0x0328, 0x0045, 0x030C, 0x0065, 0x030C, 0x0047, 0x0302,
    0x0067, 0x0302, 0x0047, 0x0306, 0x0067, 0x0306, 0x0047, 0x0307, 0x0067, 0x0307,
    0x0047, 0x0327, 0x0067, 0x0327, 0x0048, 0x0302, 0x0068, 0x0302, 0x0049, 0x0303,
    0x0069, 0x0303, 0x0049, 0x0304, 0x0069, 0x0304, 0x0049, 0x0306, 0x0069, 0x0306,
    0x0049, 0x0328, 0x0069, 0x0328, 0x0049, 0x0307, 0x004A, 0x0302, 0x006A, 0x0302,
    0x004B, 0x0327, 0x006B, 0x0327, 0x004C, 0x0301, 0x006C, 0x0301, 0x004C, 0x0327,
    0x006C, 0x0327, 0x004C, 0x030C, 0x006C, 0x030C, 0x004E, 0x0301, 0x006E, 0x0301,
    0x004E, 0x0327, 0x006E, 0x0327, 0x004E, 0x030C, 0x006E, 0x030C, 0x004F, 0x0304,
    0x006F, 0x0304, 0x004F, 0x0306, 0x006F, 0x0306, 0x004F, 0x030B, 0x006F, 0x030B,
    0x0052, 0x0301, 0x0072, 0x0301, 0x0052, 0x0327, 0x0072, 0x0327, 0x0052, 0x030C,
    0x0072, 0x030C, 0x0053, 0x0301, 0x0073, 0x0301, 0x0053, 0x0302, 0x0073, 0x0302,
    0x0053, 0x0327, 0x0073, 0x0327, 0x0053, 0x030C, 0x0073, 0x030C, 0x0054, 0x0327,
    0x0074, 0x0327, 0x0054, 0x030C, 0x0074, 0x030C, 0x0055, 0x0303, 0x0075, 0x0303,
    0x0055, 0x0304, 0x0075, 0x0304, 0x0055, 0x0306, 0x0075, 0x0306, 0x0055, 0x030A,
    0x0075, 0x030A, 0x0055, 0x030B, 0x0075, 0x030B, 0x0055, 0x0328, 0x0075, 0x0328,
    0x0057, 0x0302, 0x0077, 0x0302, 0x0059, 0x0302, 0x0079, 0x0302, 0x0059, 0x0308,
    0x005A, 0x0301, 0x007A, 0x0301, 0x005A, 0x0307, 0x007A, 0x0307, 0x005A, 0x030C,
    0x007A, 0x030C, 0x004F, 0x031B, 0x006F, 0x031B, 0x0055, 0x031B, 0x0075, 0x031B,
    0x0041, 0x030C, 0x0061, 0x030C, 0x0049, 0x030C, 0x0069, 0x030C, 0x004F, 0x030C,
    0x006F, 0x030C, 0x0055, 0x030C, 0x0075, 0x030C, 0x00DC, 0x0304, 0x00FC, 0x0304,
    0x00DC, 0x0301, 0x00FC, 0x0301, 0x00DC, 0x030C, 0x00FC, 0x030C, 0x00DC, 0x0300,
    0x00FC, 0x0300, 0x00C4, 0x0304, 0x00E4, 0x0304, 0x0226, 0x0304, 0x0227, 0x0304,
    0x00C6, 0x0304, 0x00E6, 0x0304, 0x0047, 0x030C, 0x0067, 0x030C, 0x004B, 0x030C,
    0x006B, 0x030C, 0x004F, 0x0328, 0x006F, 0x0328, 0x01EA, 0x0304, 0x01EB, 0x0304,
    0x01B7, 0x030C, 0x0292, 0x030C, 0x006A, 0x030C, 0x0047, 0x0301, 0x0067, 0x0301,
    0x004E, 0x0300, 0x006E, 0x0300, 0x00C5, 0x0301, 0x00E5, 0x0301, 0x00C6, 0x0301,
    0x00E6, 0x0301, 0x00D8, 0x0301, 0x00F8, 0x0301, 0x0041, 0x030F, 0x0061, 0x030F,
    0x0041, 0x0311, 0x0061, 0x0311, 0x0045, 0x030F, 0x0065, 0x030F, 0x0045, 0x0311,
    0x0065, 0x0311, 0x0049, 0x030F, 0x0069, 0x030F, 0x0049, 0x0311, 0x0069, 0x0311,
    0x004F, 0x030F, 0x006F, 0x030F, 0x004F, 0x0311, 0x006F, 0x0311, 0x0052, 0x030F,
    0x0072, 0x030F, 0x0052, 0x0311, 0x0072, 0x0311, 0x0055, 0x030F, 0x0075, 0x030F,
    0x0055, 0x0311, 0x0075, 0x0311, 0x0053, 0x0326, 0x0073, 0x0326, 0x0054, 0x0326,
    0x0074, 0x0326, 0x0048, 0x030C, 0x0068, 0x030C, 0x0041, 0x0307, 0x0061, 0x0307,
    0x0045, 0x0327, 0x0065, 0x0327, 0x00D6, 0x0304, 0x00F6, 0x0304, 0x00D5, 0x0304,
    0x00F5, 0x0304, 0x004F, 0x0307, 0x006F, 0x0307, 0x022E, 0x0304, 0x022F, 0x0304,
    0x0059, 0x0304, 0x0079, 0x0304, 0x0300, 0x0301, 0x0313, 0x0308, 0x0301, 0x02B9,
    0x003B, 0x00A8, 0x0301, 0x0391, 0x0301, 0x00B7, 0x0395, 0x0301, 0x0397, 0x0301,
    0x0399, 0x0301, 0x039F, 0x0301, 0x03A5, 0x0301, 0x03A9, 0x0301, 0x03CA, 0x0301,
    0x0399, 0x0308, 0x03A5, 0x0308, 0x03B1, 0x0301, 0x03B5, 0x0301, 0x03B7, 0x0301,
    0x03B9, 0x0301, 0x03CB, 0x0301, 0x03B9, 0x0308, 0x03C5, 0x0308, 0x03BF, 0x0301,
    0x03C5, 0x0301, 0x03C9, 0x0301, 0x03D2, 0x0301, 0x03D2, 0x0308, 0x0415, 0x0300,
    0x0415, 0x0308, 0x0413, 0x0301, 0x0406, 0x0308, 0x041A, 0x0301, 0x0418, 0x0300,
    0x0423, 0x0306, 0x0418, 0x0306, 0x0438, 0x0306, 0x0435, 0x0300, 0x0435, 0x0308,
    0x0433, 0x0301, 0x0456, 0x0308, 0x043A, 0x0301, 0x0438, 0x0300, 0x0443, 0x0306,
    0x0474, 0x030F, 0x0475, 0x030F, 0x0416, 0x0306, 0x0436, 0x0306, 0x0410, 0x0306,
    0x0430, 0x0306, 0x0410, 0x0308, 0x0430, 0x0308, 0x0415, 0x0306, 0x0435, 0x0306,
    0x04D8, 0x0308, 0x04D9, 0x0308, 0x0416, 0x0308, 0x0436, 0x0308, 0x0417, 0x0308,
    0x0437, 0x0308, 0x0418, 0x0304, 0x0438, 0x0304, 0x0418, 0x0308, 0x0438, 0x0308,
    0x041E, 0x0308, 0x043E, 0x0308, 0x04E8, 0x0308, 0x04E9, 0x0308, 0x042D, 0x0308,
    0x044D, 0x0308, 0x0423, 0x0304, 0x0443, 0x0304, 0x0423, 0x0308, 0x0443, 0x0308,
    0x0423, 0x030B, 0x0443, 0x030B, 0x0427, 0x0308, 0x0447, 0x0308, 0x042B, 0x0308,
    0x044B, 0x0308, 0x0627, 0x0653, 0x0627, 0x0654, 0x0648, 0x0654, 0x0627, 0x0655,
    0x064A, 0x0654, 0x06D5, 0x0654, 0x06C1, 0x0654, 0x06D2, 0x0654, 0x0928, 0x093C,
    0x0930, 0x093C, 0x0933, 0x093C, 0x0915, 0x093C, 0x0916, 0x093C, 0x0917, 0x093C,
    0x091C, 0x093C, 0x0921, 0x093C, 0x0922, 0x093C, 0x092B, 0x093C, 0x092F, 0x093C,
    0x09C7, 0x09BE, 0x09C7, 0x09D7, 0x09A1, 0x09BC, 0x09A2, 0x09BC, 0x09AF, 0x09BC,
    0x0A32, 0x0A3C, 0x0A38, 0x0A3C, 0x0A16, 0x0A3C, 0x0A17, 0x0A3C, 0x0A1C, 0x0A3C,
    0x0A2B, 0x0A3C, 0x0B47, 0x0B56, 0x0B47, 0x0B3E, 0x0B47, 0x0B57, 0x0B21, 0x0B3C,
    0x0B22, 0x0B3C, 0x0B92, 0x0BD7, 0x0BC6, 0x0BBE, 0x0BC7, 0x0BBE, 0x0BC6, 0x0BD7,
    0x0C46, 0x0C56, 0x0CBF, 0x0CD5, 0x0CC6, 0x0CD5, 0x0CC6, 0x0CD6, 0x0CC6, 0x0CC2,
    0x0CCA, 0x0CD5, 0x0D46, 0x0D3E, 0x0D47, 0x0D3E, 0x0D46, 0x0D57, 0x0DD9, 0x0DCA,
    0x0DD9, 0x0DCF, 0x0DDC, 0x0DCA, 0x0DD9, 0x0DDF, 0x0F42, 0x0FB7, 0x0F4C, 0x0FB7,
    0x0F51, 0x0FB7, 0x0F56, 0x0FB7, 0x0F5B, 0x0FB7, 0x0F40, 0x0FB5, 0x0F71, 0x0F72,
    0x0F71, 0x0F74, 0x0FB2, 0x0F80, 0x0FB3, 0x0F80, 0x0F71, 0x0F80, 0x0F92, 0x0FB7,
    0x0F9C, 0x0FB7, 0x0FA1, 0x0FB7, 0x0FA6, 0x0FB7, 0x0FAB, 0x0FB7, 0x0F90, 0x0FB5,
    0x1025, 0x102E, 0x1B05, 0x1B35, 0x1B07, 0x1B35, 0x1B09, 0x1B35, 0x1B0B, 0x1B35,
    0x1B0D, 0x1B35, 0x1B11, 0x1B35, 0x1B3A, 0x1B35, 0x1B3C, 0x1B35, 0x1B3E, 0x1B35,
    0x1B3F, 0x1B35, 0x1B42, 0x1B35, 0x0041, 0x0325, 0x0061, 0x0325, 0x0042, 0x0307,
    0x0062, 0x0307, 0x0042, 0x0323, 0x0062, 0x0323, 0x0042, 0x0331, 0x0062, 0x0331,
    0x00C7, 0x0301, 0x00E7, 0x0301, 0x0044, 0x0307, 0x0064, 0x0307, 0x0044, 0x0323,
    0x0064, 0x0323, 0x0044, 0x0331, 0x0064, 0x0331, 0x0044, 0x0327, 0x0064, 0x0327,
    0x0044, 0x032D, 0x0064, 0x032D, 0x0112, 0x0300, 0x0113, 0x0300, 0x0112, 0x0301,
    0x0113, 0x0301, 0x0045, 0x032D, 0x0065, 0x032D, 0x0045, 0x0330, 0x0065, 0x0330,
    0x0228, 0x0306, 0x0229, 0x0306, 0x0046, 0x0307, 0x0066, 0x0307, 0x0047, 0x0304,
    0x0067, 0x0304, 0x0048, 0x0307, 0x0068, 0x0307, 0x0048, 0x0323, 0x0068, 0x0323,
    0x0048, 0x0308, 0x0068, 0x0308, 0x0048, 0x0327, 0x0068, 0x0327, 0x0048, 0x032E,
    0x0068, 0x032E, 0x0049, 0x0330, 0x0069, 0x0330, 0x00CF, 0x0301, 0x00EF, 0x0301,
    0x004B, 0x0301, 0x006B, 0x0301, 0x004B, 0x0323, 0x006B, 0x0323, 0x004B, 0x0331,
    0x006B, 0x0331, 0x004C, 0x0323, 0x006C, 0x0323, 0x1E36, 0x0304, 0x1E37, 0x0304,
    0x004C, 0x0331, 0x006C, 0x0331, 0x004C, 0x032D, 0x006C, 0x032D, 0x004D, 0x0301,
    0x006D, 0x0301, 0x004D, 0x0307, 0x006D, 0x0307, 0x004D, 0x0323, 0x006D, 0x0323,
    0x004E, 0x0307, 0x006E, 0x0307, 0x004E, 0x0323, 0x006E, 0x0323, 0x004E, 0x0331,
    0x006E, 0x0331, 0x004E, 0x032D, 0x006E, 0x032D, 0x00D5, 0x0301, 0x00F5, 0x0301,
    0x00D5, 0x0308, 0x00F5, 0x0308, 0x014C, 0x0300, 0x014D, 0x0300, 0x014C, 0x0301,
    0x014D, 0x0301, 0x0050, 0x0301, 0x0070, 0x0301, 0x0050, 0x0307, 0x0070, 0x0307,
];

const CANONICAL_POOL_1: [u32; 1000] = [
    0x0052, 0x0307, 0x0072, 0x0307, 0x0052, 0x0323, 0x0072, 0x0323, 0x1E5A, 0x0304,
    0x1E5B, 0x0304, 0x0052, 0x0331, 0x0072, 0x0331, 0x0053, 0x0307, 0x0073, 0x0307,
    0x0053, 0x0323, 0x0073, 0x0323, 0x015A, 0x0307, 0x015B, 0x0307, 0x0160, 0x0307,
    0x0161, 0x0307, 0x1E62, 0x0307, 0x1E63, 0x0307, 0x0054, 0x0307, 0x0074, 0x0307,
    0x0054, 0x0323, 0x0074, 0x0323, 0x0054, 0x0331, 0x0074, 0x0331, 0x0054, 0x032D,
    0x0074, 0x032D, 0x0055, 0x0324, 0x0075, 0x0324, 0x0055, 0x0330, 0x0075, 0x0330,
    0x0055, 0x032D, 0x0075, 0x032D, 0x0168, 0x0301, 0x0169, 0x0301, 0x016A, 0x0308,
    0x016B, 0x0308, 0x0056, 0x0303, 0x0076, 0x0303, 0x0056, 0x0323, 0x0076, 0x0323,
    0x0057, 0x0300, 0x0077, 0x0300, 0x0057, 0x0301, 0x0077, 0x0301, 0x0057, 0x0308,
    0x0077, 0x0308, 0x0057, 0x0307, 0x0077, 0x0307, 0x0057, 0x0323, 0x0077, 0x0323,
    0x0058, 0x0307, 0x0078, 0x0307, 0x0058, 0x0308, 0x0078, 0x0308, 0x0059, 0x0307,
    0x0079, 0x0307, 0x005A, 0x0302, 0x007A, 0x0302, 0x005A, 0x0323, 0x007A, 0x0323,
    0x005A, 0x0331, 0x007A, 0x0331, 0x0068, 0x0331, 0x0074, 0x0308, 0x0077, 0x030A,
    0x0079, 0x030A, 0x017F, 0x0307, 0x0041, 0x0323, 0x0061, 0x0323, 0x0041, 0x0309,
    0x0061, 0x0309, 0x00C2, 0x0301, 0x00E2, 0x0301, 0x00C2, 0x0300, 0x00E2, 0x0300,
    0x00C2, 0x0309, 0x00E2, 0x0309, 0x00C2, 0x0303, 0x00E2, 0x0303, 0x1EA0, 0x0302,
    0x1EA1, 0x0302, 0x0102, 0x0301, 0x0103, 0x0301, 0x0102, 0x0300, 0x0103, 0x0300,
    0x0102, 0x0309, 0x0103, 0x0309, 0x0102, 0x0303, 0x0103, 0x0303, 0x1EA0, 0x0306,
    0x1EA1, 0x0306, 0x0045, 0x0323, 0x0065, 0x0323, 0x0045, 0x0309, 0x0065, 0x0309,
    0x0045, 0x0303, 0x0065, 0x0303, 0x00CA, 0x0301, 0x00EA, 0x0301, 0x00CA, 0x0300,
    0x00EA, 0x0300, 0x00CA, 0x0309, 0x00EA, 0x0309, 0x00CA, 0x0303, 0x00EA, 0x0303,
    0x1EB8, 0x0302, 0x1EB9, 0x0302, 0x0049, 0x0309, 0x0069, 0x0309, 0x0049, 0x0323,
    0x0069, 0x0323, 0x004F, 0x0323, 0x006F, 0x0323, 0x004F, 0x0309, 0x006F, 0x0309,
    0x00D4, 0x0301, 0x00F4, 0x0301, 0x00D4, 0x0300, 0x00F4, 0x0300, 0x00D4, 0x0309,
    0x00F4, 0x0309, 0x00D4, 0x0303, 0x00F4, 0x0303, 0x1ECC, 0x0302, 0x1ECD, 0x0302,
    0x01A0, 0x0301, 0x01A1, 0x0301, 0x01A0, 0x0300, 0x01A1, 0x0300, 0x01A0, 0x0309,
    0x01A1, 0x0309, 0x01A0, 0x0303, 0x01A1, 0x0303, 0x01A0, 0x0323, 0x01A1, 0x0323,
    0x0055, 0x0323, 0x0075, 0x0323, 0x0055, 0x0309, 0x0075, 0x0309, 0x01AF, 0x0301,
    0x01B0, 0x0301, 0x01AF, 0x0300, 0x01B0, 0x0300, 0x01AF, 0x0309, 0x01B0, 0x0309,
    0x01AF, 0x0303, 0x01B0, 0x0303, 0x01AF, 0x0323, 0x01B0, 0x0323, 0x0059, 0x0300,
    0x0079, 0x0300, 0x0059, 0x0323, 0x0079, 0x0323, 0x0059, 0x0309, 0x0079, 0x0309,
    0x0059, 0x0303, 0x0079, 0x0303, 0x03B1, 0x0313, 0x03B1, 0x0314, 0x1F00, 0x0300,
    0x1F01, 0x0300, 0x1F00, 0x0301, 0x1F01, 0x0301, 0x1F00, 0x0342, 0x1F01, 0x0342,
    0x0391, 0x0313, 0x0391, 0x0314, 0x1F08, 0x0300, 0x1F09, 0x0300, 0x1F08, 0x0301,
    0x1F09, 0x0301, 0x1F08, 0x0342, 0x1F09, 0x0342, 0x03B5, 0x0313, 0x03B5, 0x0314,
    0x1F10, 0x0300, 0x1F11, 0x0300, 0x1F10, 0x0301, 0x1F11, 0x0301, 0x0395, 0x0313,
    0x0395, 0x0314, 0x1F18, 0x0300, 0x1F19, 0x0300, 0x1F18, 0x0301, 0x1F19, 0x0301,
    0x03B7, 0x0313, 0x03B7, 0x0314, 0x1F20, 0x0300, 0x1F21, 0x0300, 0x1F20, 0x0301,
    0x1F21, 0x0301, 0x1F20, 0x0342, 0x1F21, 0x0342, 0x0397, 0x0313, 0x0397, 0x0314,
    0x1F28, 0x0300, 0x1F29, 0x0300, 0x1F28, 0x0301, 0x1F29, 0x0301, 0x1F28, 0x0342,
    0x1F29, 0x0342, 0x03B9, 0x0313, 0x03B9, 0x0314, 0x1F30, 0x0300, 0x1F31, 0x0300,
    0x1F30, 0x0301, 0x1F31, 0x0301, 0x1F30, 0x0342, 0x1F31, 0x0342, 0x0399, 0x0313,
    0x0399, 0x0314, 0x1F38, 0x0300, 0x1F39, 0x0300, 0x1F38, 0x0301, 0x1F39, 0x0301,
    0x1F38, 0x0342, 0x1F39, 0x0342, 0x03BF, 0x0313, 0x03BF, 0x0314, 0x1F40, 0x0300,
    0x1F41, 0x0300, 0x1F40, 0x0301, 0x1F41, 0x0301, 0x039F, 0x0313, 0x039F, 0x0314,
    0x1F48, 0x0300, 0x1F49, 0x0300, 0x1F48, 0x0301, 0x1F49, 0x0301, 0x03C5, 0x0313,
    0x03C5, 0x0314, 0x1F50, 0x0300, 0x1F51, 0x0300, 0x1F50, 0x0301, 0x1F51, 0x0301,
    0x1F50, 0x0342, 0x1F51, 0x0342, 0x03A5, 0x0314, 0x1F59, 0x0300, 0x1F59, 0x0301,
    0x1F59, 0x0342, 0x03C9, 0x0313, 0x03C9, 0x0314, 0x1F60, 0x0300, 0x1F61, 0x0300,
    0x1F60, 0x0301, 0x1F61, 0x0301, 0x1F60, 0x0342, 0x1F61, 0x0342, 0x03A9, 0x0313,
    0x03A9, 0x0314, 0x1F68, 0x0300, 0x1F69, 0x0300, 0x1F68, 0x0301, 0x1F69, 0x0301,
    0x1F68, 0x0342, 0x1F69, 0x0342, 0x03B1, 0x0300, 0x03AC, 0x03B5, 0x0300, 0x03AD,
    0x03B7, 0x0300, 0x03AE, 0x03B9, 0x0300, 0x03AF, 0x03BF, 0x0300, 0x03CC, 0x03C5,
    0x0300, 0x03CD, 0x03C9, 0x0300, 0x03CE, 0x1F00, 0x0345, 0x1F01, 0x0345, 0x1F02,
    0x0345, 0x1F03, 0x0345, 0x1F04, 0x0345, 0x1F05, 0x0345, 0x1F06, 0x0345, 0x1F07,
    0x0345, 0x1F08, 0x0345, 0x1F09, 0x0345, 0x1F0A, 0x0345, 0x1F0B, 0x0345, 0x1F0C,
    0x0345, 0x1F0D, 0x0345, 0x1F0E, 0x0345, 0x1F0F, 0x0345, 0x1F20, 0x0345, 0x1F21,
    0x0345, 0x1F22, 0x0345, 0x1F23, 0x0345, 0x1F24, 0x0345, 0x1F25, 0x0345, 0x1F26,
    0x0345, 0x1F27, 0x0345, 0x1F28, 0x0345, 0x1F29, 0x0345, 0x1F2A, 0x0345, 0x1F2B,
    0x0345, 0x1F2C, 0x0345, 0x1F2D, 0x0345, 0x1F2E, 0x0345, 0x1F2F, 0x0345, 0x1F60,
    0x0345, 0x1F61, 0x0345, 0x1F62, 0x0345, 0x1F63, 0x0345, 0x1F64, 0x0345, 0x1F65,
    0x0345, 0x1F66, 0x0345, 0x1F67, 0x0345, 0x1F68, 0x0345, 0x1F69, 0x0345, 0x1F6A,
    0x0345, 0x1F6B, 0x0345, 0x1F6C, 0x0345, 0x1F6D, 0x0345, 0x1F6E, 0x0345, 0x1F6F,
    0x0345, 0x03B1, 0x0306, 0x03B1, 0x0304, 0x1F70, 0x0345, 0x03B1, 0x0345, 0x03AC,
    0x0345, 0x03B1, 0x0342, 0x1FB6, 0x0345, 0x0391, 0x0306, 0x0391, 0x0304, 0x0391,
    0x0300, 0x0386, 0x0391, 0x0345, 0x03B9, 0x00A8, 0x0342, 0x1F74, 0x0345, 0x03B7,
    0x0345, 0x03AE, 0x0345, 0x03B7, 0x0342, 0x1FC6, 0x0345, 0x0395, 0x0300, 0x0388,
    0x0397, 0x0300, 0x0389, 0x0397, 0x0345, 0x1FBF, 0x0300, 0x1FBF, 0x0301, 0x1FBF,
    0x0342, 0x03B9, 0x0306, 0x03B9, 0x0304, 0x03CA, 0x0300, 0x0390, 0x03B9, 0x0342,
    0x03CA, 0x0342, 0x0399, 0x0306, 0x0399, 0x0304, 0x0399, 0x0300, 0x038A, 0x1FFE,
    0x0300, 0x1FFE, 0x0301, 0x1FFE, 0x0342, 0x03C5, 0x0306, 0x03C5, 0x0304, 0x03CB,
    0x0300, 0x03B0, 0x03C1, 0x0313, 0x03C1, 0x0314, 0x03C5, 0x0342, 0x03CB, 0x0342,
    0x03A5, 0x0306, 0x03A5, 0x0304, 0x03A5, 0x0300, 0x038E, 0x03A1, 0x0314, 0x00A8,
    0x0300, 0x0385, 0x0060, 0x1F7C, 0x0345, 0x03C9, 0x0345, 0x03CE, 0x0345, 0x03C9,
    0x0342, 0x1FF6, 0x0345, 0x039F, 0x0300, 0x038C, 0x03A9, 0x0300, 0x038F, 0x03A9,
    0x0345, 0x00B4, 0x2002, 0x2003, 0x03A9, 0x004B, 0x00C5, 0x2190, 0x0338, 0x2192,
    0x0338, 0x2194, 0x0338, 0x21D0, 0x0338, 0x21D4, 0x0338, 0x21D2, 0x0338, 0x2203,
    0x0338, 0x2208, 0x0338, 0x220B, 0x0338, 0x2223, 0x0338, 0x2225, 0x0338, 0x223C,
    0x0338, 0x2243, 0x0338, 0x2245, 0x0338, 0x2248, 0x0338, 0x003D, 0x0338, 0x2261,
    0x0338, 0x224D, 0x0338, 0x003C, 0x0338, 0x003E, 0x0338, 0x2264, 0x0338, 0x2265,
    0x0338, 0x2272, 0x0338, 0x2273, 0x0338, 0x2276, 0x0338, 0x2277, 0x0338, 0x227A,
    0x0338, 0x227B, 0x0338, 0x2282, 0x0338, 0x2283, 0x0338, 0x2286, 0x0338, 0x2287,
    0x0338, 0x22A2, 0x0338, 0x22A8, 0x0338, 0x22A9, 0x0338, 0x22AB, 0x0338, 0x227C,
    0x0338, 0x227D, 0x0338, 0x2291, 0x0338, 0x2292, 0x0338, 0x22B2, 0x0338, 0x22B3,
    0x0338, 0x22B4, 0x0338, 0x22B5, 0x0338, 0x3008, 0x3009, 0x2ADD, 0x0338, 0x304B,
    0x3099, 0x304D, 0x3099, 0x304F, 0x3099, 0x3051, 0x3099, 0x3053, 0x3099, 0x3055,
    0x3099, 0x3057, 0x3099, 0x3059, 0x3099, 0x305B, 0x3099, 0x305D, 0x3099, 0x305F,
    0x3099, 0x3061, 0x3099, 0x3064, 0x3099, 0x3066, 0x3099, 0x3068, 0x3099, 0x306F,
    0x3099, 0x306F, 0x309A, 0x3072, 0x3099, 0x3072, 0x309A, 0x3075, 0x3099, 0x3075,
    0x309A, 0x3078, 0x3099, 0x3078, 0x309A, 0x307B, 0x3099, 0x307B, 0x309A, 0x3046,
    0x3099, 0x309D, 0x3099, 0x30AB, 0x3099, 0x30AD, 0x3099, 0x30AF, 0x3099, 0x30B1,
    0x3099, 0x30B3, 0x3099, 0x30B5, 0x3099, 0x30B7, 0x3099, 0x30B9, 0x3099, 0x30BB,
    0x3099, 0x30BD, 0x3099, 0x30BF, 0x3099, 0x30C1, 0x3099, 0x30C4, 0x3099, 0x30C6,
    0x3099, 0x30C8, 0x3099, 0x30CF, 0x3099, 0x30CF, 0x309A, 0x30D2, 0x3099, 0x30D2,
    0x309A, 0x30D5, 0x3099, 0x30D5, 0x309A, 0x30D8, 0x3099, 0x30D8, 0x309A, 0x30DB,
    0x3099, 0x30DB, 0x309A, 0x30A6, 0x3099, 0x30EF, 0x3099, 0x30F0, 0x3099, 0x30F1,
    0x3099, 0x30F2, 0x3099, 0x30FD, 0x3099, 0x8C48, 0x66F4, 0x8ECA, 0x8CC8, 0x6ED1,
    0x4E32, 0x53E5, 0x9F9C, 0x9F9C, 0x5951, 0x91D1, 0x5587, 0x5948, 0x61F6, 0x7669,
    0x7F85, 0x863F, 0x87BA, 0x88F8, 0x908F, 0x6A02, 0x6D1B, 0x70D9, 0x73DE, 0x843D,
    0x916A, 0x99F1, 0x4E82, 0x5375, 0x6B04, 0x721B, 0x862D, 0x9E1E, 0x5D50, 0x6FEB,
];

const CANONICAL_POOL_2: [u32; 1000] = [
    0x85CD, 0x8964, 0x62C9, 0x81D8, 0x881F, 0x5ECA, 0x6717, 0x6D6A, 0x72FC, 0x90CE,
    0x4F86, 0x51B7, 0x52DE, 0x64C4, 0x6AD3, 0x7210, 0x76E7, 0x8001, 0x8606, 0x865C,
    0x8DEF, 0x9732, 0x9B6F, 0x9DFA, 0x788C, 0x797F, 0x7DA0, 0x83C9, 0x9304, 0x9E7F,
    0x8AD6, 0x58DF, 0x5F04, 0x7C60, 0x807E, 0x7262, 0x78CA, 0x8CC2, 0x96F7, 0x58D8,
    0x5C62, 0x6A13, 0x6DDA, 0x6F0F, 0x7D2F, 0x7E37, 0x964B, 0x52D2, 0x808B, 0x51DC,
    0x51CC, 0x7A1C, 0x7DBE, 0x83F1, 0x9675, 0x8B80, 0x62CF, 0x6A02, 0x8AFE, 0x4E39,
    0x5BE7, 0x6012, 0x7387, 0x7570, 0x5317, 0x78FB, 0x4FBF, 0x5FA9, 0x4E0D, 0x6CCC,
    0x6578, 0x7D22, 0x53C3, 0x585E, 0x7701, 0x8449, 0x8AAA, 0x6BBA, 0x8FB0, 0x6C88,
    0x62FE, 0x82E5, 0x63A0, 0x7565, 0x4EAE, 0x5169, 0x51C9, 0x6881, 0x7CE7, 0x826F,
    0x8AD2, 0x91CF, 0x52F5, 0x5442, 0x5973, 0x5EEC, 0x65C5, 0x6FFE, 0x792A, 0x95AD,
    0x9A6A, 0x9E97, 0x9ECE, 0x529B, 0x66C6, 0x6B77, 0x8F62, 0x5E74, 0x6190, 0x6200,
    0x649A, 0x6F23, 0x7149, 0x7489, 0x79CA, 0x7DF4, 0x806F, 0x8F26, 0x84EE, 0x9023,
    0x934A, 0x5217, 0x52A3, 0x54BD, 0x70C8, 0x88C2, 0x8AAA, 0x5EC9, 0x5FF5, 0x637B,
    0x6BAE, 0x7C3E, 0x7375, 0x4EE4, 0x56F9, 0x5BE7, 0x5DBA, 0x601C, 0x73B2, 0x7469,
    0x7F9A, 0x8046, 0x9234, 0x96F6, 0x9748, 0x9818, 0x4F8B, 0x79AE, 0x91B4, 0x96B8,
    0x60E1, 0x4E86, 0x50DA, 0x5BEE, 0x5C3F, 0x6599, 0x6A02, 0x71CE, 0x7642, 0x84FC,
    0x907C, 0x9F8D, 0x6688, 0x962E, 0x5289, 0x677B, 0x67F3, 0x6D41, 0x6E9C, 0x7409,
    0x7559, 0x786B, 0x7D10, 0x985E, 0x516D, 0x622E, 0x9678, 0x502B, 0x5D19, 0x6DEA,
    0x8F2A, 0x5F8B, 0x6144, 0x6817, 0x7387, 0x9686, 0x5229, 0x540F, 0x5C65, 0x6613,
    0x674E, 0x68A8, 0x6CE5, 0x7406, 0x75E2, 0x7F79, 0x88CF, 0x88E1, 0x91CC, 0x96E2,
    0x533F, 0x6EBA, 0x541D, 0x71D0, 0x7498, 0x85FA, 0x96A3, 0x9C57, 0x9E9F, 0x6797,
    0x6DCB, 0x81E8, 0x7ACB, 0x7B20, 0x7C92, 0x72C0, 0x7099, 0x8B58, 0x4EC0, 0x8336,
    0x523A, 0x5207, 0x5EA6, 0x62D3, 0x7CD6, 0x5B85, 0x6D1E, 0x66B4, 0x8F3B, 0x884C,
    0x964D, 0x898B, 0x5ED3, 0x5140, 0x55C0, 0x585A, 0x6674, 0x51DE, 0x732A, 0x76CA,
    0x793C, 0x795E, 0x7965, 0x798F, 0x9756, 0x7CBE, 0x7FBD, 0x8612, 0x8AF8, 0x9038,
    0x90FD, 0x98EF, 0x98FC, 0x9928, 0x9DB4, 0x90DE, 0x96B7, 0x4FAE, 0x50E7, 0x514D,
    0x52C9, 0x52E4, 0x5351, 0x559D, 0x5606, 0x5668, 0x5840, 0x58A8, 0x5C64, 0x5C6E,
    0x6094, 0x6168, 0x618E, 0x61F2, 0x654F, 0x65E2, 0x6691, 0x6885, 0x6D77, 0x6E1A,
    0x6F22, 0x716E, 0x722B, 0x7422, 0x7891, 0x793E, 0x7949, 0x7948, 0x7950, 0x7956,
    0x795D, 0x798D, 0x798E, 0x7A40, 0x7A81, 0x7BC0, 0x7DF4, 0x7E09, 0x7E41, 0x7F72,
    0x8005, 0x81ED, 0x8279, 0x8279, 0x8457, 0x8910, 0x8996, 0x8B01, 0x8B39, 0x8CD3,
    0x8D08, 0x8FB6, 0x9038, 0x96E3, 0x97FF, 0x983B, 0x6075, 0x242EE, 0x8218, 0x4E26,
    0x51B5, 0x5168, 0x4F80, 0x5145, 0x5180, 0x52C7, 0x52FA, 0x559D, 0x5555, 0x5599,
    0x55E2, 0x585A, 0x58B3, 0x5944, 0x5954, 0x5A62, 0x5B28, 0x5ED2, 0x5ED9, 0x5F69,
    0x5FAD, 0x60D8, 0x614E, 0x6108, 0x618E, 0x6160, 0x61F2, 0x6234, 0x63C4, 0x641C,
    0x6452, 0x6556, 0x6674, 0x6717, 0x671B, 0x6756, 0x6B79, 0x6BBA, 0x6D41, 0x6EDB,
    0x6ECB, 0x6F22, 0x701E, 0x716E, 0x77A7, 0x7235, 0x72AF, 0x732A, 0x7471, 0x7506,
    0x753B, 0x761D, 0x761F, 0x76CA, 0x76DB, 0x76F4, 0x774A, 0x7740, 0x78CC, 0x7AB1,
    0x7BC0, 0x7C7B, 0x7D5B, 0x7DF4, 0x7F3E, 0x8005, 0x8352, 0x83EF, 0x8779, 0x8941,
    0x8986, 0x8996, 0x8ABF, 0x8AF8, 0x8ACB, 0x8B01, 0x8AFE, 0x8AED, 0x8B39, 0x8B8A,
    0x8D08, 0x8F38, 0x9072, 0x9199, 0x9276, 0x967C, 0x96E3, 0x9756, 0x97DB, 0x97FF,
    0x980B, 0x983B, 0x9B12, 0x9F9C, 0x2284A, 0x22844, 0x233D5, 0x3B9D, 0x4018, 0x4039,
    0x25249, 0x25CD0, 0x27ED3, 0x9F43, 0x9F8E, 0x05D9, 0x05B4, 0x05F2, 0x05B7, 0x05E9,
    0x05C1, 0x05E9, 0x05C2, 0xFB49, 0x05C1, 0xFB49, 0x05C2, 0x05D0, 0x05B7, 0x05D0,
    0x05B8, 0x05D0, 0x05BC, 0x05D1, 0x05BC, 0x05D2, 0x05BC, 0x05D3, 0x05BC, 0x05D4,
    0x05BC, 0x05D5, 0x05BC, 0x05D6, 0x05BC, 0x05D8, 0x05BC, 0x05D9, 0x05BC, 0x05DA,
    0x05BC, 0x05DB, 0x05BC, 0x05DC, 0x05BC, 0x05DE, 0x05BC, 0x05E0, 0x05BC, 0x05E1,
    0x05BC, 0x05E3, 0x05BC, 0x05E4, 0x05BC, 0x05E6, 0x05BC, 0x05E7, 0x05BC, 0x05E8,
    0x05BC, 0x05E9, 0x05BC, 0x05EA, 0x05BC, 0x05D5, 0x05B9, 0x05D1, 0x05BF, 0x05DB,
    0x05BF, 0x05E4, 0x05BF, 0x11099, 0x110BA, 0x1109B, 0x110BA, 0x110A5, 0x110BA, 0x11131,
    0x11127, 0x11132, 0x11127, 0x11347, 0x1133E, 0x11347, 0x11357, 0x114B9, 0x114BA, 0x114B9,
    0x114B0, 0x114B9, 0x114BD, 0x115B8, 0x115AF, 0x115B9, 0x115AF, 0x11935, 0x11930, 0x1D157,
    0x1D165, 0x1D158, 0x1D165, 0x1D15F, 0x1D16E, 0x1D15F, 0x1D16F, 0x1D15F, 0x1D170, 0x1D15F,
    0x1D171, 0x1D15F, 0x1D172, 0x1D1B9, 0x1D165, 0x1D1BA, 0x1D165, 0x1D1BB, 0x1D16E, 0x1D1BC,
    0x1D16E, 0x1D1BB, 0x1D16F, 0x1D1BC, 0x1D16F, 0x4E3D, 0x4E38, 0x4E41, 0x20122, 0x4F60,
    0x4FAE, 0x4FBB, 0x5002, 0x507A, 0x5099, 0x50E7, 0x50CF, 0x349E, 0x2063A, 0x514D,
    0x5154, 0x5164, 0x5177, 0x2051C, 0x34B9, 0x5167, 0x518D, 0x2054B, 0x5197, 0x51A4,
    0x4ECC, 0x51AC, 0x51B5, 0x291DF, 0x51F5, 0x5203, 0x34DF, 0x523B, 0x5246, 0x5272,
    0x5277, 0x3515, 0x52C7, 0x52C9, 0x52E4, 0x52FA, 0x5305, 0x5306, 0x5317, 0x5349,
    0x5351, 0x535A, 0x5373, 0x537D, 0x537F, 0x537F, 0x537F, 0x20A2C, 0x7070, 0x53CA,
    0x53DF, 0x20B63, 0x53EB, 0x53F1, 0x5406, 0x549E, 0x5438, 0x5448, 0x5468, 0x54A2,
    0x54F6, 0x5510, 0x5553, 0x5563, 0x5584, 0x5584, 0x5599, 0x55AB, 0x55B3, 0x55C2,
    0x5716, 0x5606, 0x5717, 0x5651, 0x5674, 0x5207, 0x58EE, 0x57CE, 0x57F4, 0x580D,
    0x578B, 0x5832, 0x5831, 0x58AC, 0x214E4, 0x58F2, 0x58F7, 0x5906, 0x591A, 0x5922,
    0x5962, 0x216A8, 0x216EA, 0x59EC, 0x5A1B, 0x5A27, 0x59D8, 0x5A66, 0x36EE, 0x36FC,
    0x5B08, 0x5B3E, 0x5B3E, 0x219C8, 0x5BC3, 0x5BD8, 0x5BE7, 0x5BF3, 0x21B18, 0x5BFF,
    0x5C06, 0x5F53, 0x5C22, 0x3781, 0x5C60, 0x5C6E, 0x5CC0, 0x5C8D, 0x21DE4, 0x5D43,
    0x21DE6, 0x5D6E, 0x5D6B, 0x5D7C, 0x5DE1, 0x5DE2, 0x382F, 0x5DFD, 0x5E28, 0x5E3D,
    0x5E69, 0x3862, 0x22183, 0x387C, 0x5EB0, 0x5EB3, 0x5EB6, 0x5ECA, 0x2A392, 0x5EFE,
    0x22331, 0x22331, 0x8201, 0x5F22, 0x5F22, 0x38C7, 0x232B8, 0x261DA, 0x5F62, 0x5F6B,
    0x38E3, 0x5F9A, 0x5FCD, 0x5FD7, 0x5FF9, 0x6081, 0x393A, 0x391C, 0x6094, 0x226D4,
    0x60C7, 0x6148, 0x614C, 0x614E, 0x614C, 0x617A, 0x618E, 0x61B2, 0x61A4, 0x61AF,
    0x61DE, 0x61F2, 0x61F6, 0x6210, 0x621B, 0x625D, 0x62B1, 0x62D4, 0x6350, 0x22B0C,
    0x633D, 0x62FC, 0x6368, 0x6383, 0x63E4, 0x22BF1, 0x6422, 0x63C5, 0x63A9, 0x3A2E,
    0x6469, 0x647E, 0x649D, 0x6477, 0x3A6C, 0x654F, 0x656C, 0x2300A, 0x65E3, 0x66F8,
    0x6649, 0x3B19, 0x6691, 0x3B08, 0x3AE4, 0x5192, 0x5195, 0x6700, 0x669C, 0x80AD,
    0x43D9, 0x6717, 0x671B, 0x6721, 0x675E, 0x6753, 0x233C3, 0x3B49, 0x67FA, 0x6785,
    0x6852, 0x6885, 0x2346D, 0x688E, 0x681F, 0x6914, 0x3B9D, 0x6942, 0x69A3, 0x69EA,
    0x6AA8, 0x236A3, 0x6ADB, 0x3C18, 0x6B21, 0x238A7, 0x6B54, 0x3C4E, 0x6B72, 0x6B9F,
    0x6BBA, 0x6BBB, 0x23A8D, 0x21D0B, 0x23AFA, 0x6C4E, 0x23CBC, 0x6CBF, 0x6CCD, 0x6C67,
    0x6D16, 0x6D3E, 0x6D77, 0x6D41, 0x6D69, 0x6D78, 0x6D85, 0x23D1E, 0x6D34, 0x6E2F,
    0x6E6E, 0x3D33, 0x6ECB, 0x6EC7, 0x23ED1, 0x6DF9, 0x6F6E, 0x23F5E, 0x23F8E, 0x6FC6,
    0x7039, 0x701E, 0x701B, 0x3D96, 0x704A, 0x707D, 0x7077, 0x70AD, 0x20525, 0x7145,
    0x24263, 0x719C, 0x243AB, 0x7228, 0x7235, 0x7250, 0x24608, 0x7280, 0x7295, 0x24735,
    0x24814, 0x737A, 0x738B, 0x3EAC, 0x73A5, 0x3EB8, 0x3EB8, 0x7447, 0x745C, 0x7471,
    0x7485, 0x74CA, 0x3F1B, 0x7524, 0x24C36, 0x753E, 0x24C92, 0x7570, 0x2219F, 0x7610,
    0x24FA1, 0x24FB8, 0x25044, 0x3FFC, 0x4008, 0x76F4, 0x250F3, 0x250F2, 0x25119, 0x25133,
    0x771E, 0x771F, 0x771F, 0x774A, 0x4039, 0x778B, 0x4046, 0x4096, 0x2541D, 0x784E,
    0x788C, 0x78CC, 0x40E3, 0x25626, 0x7956, 0x2569A, 0x256C5, 0x798F, 0x79EB, 0x412F,
    0x7A40, 0x7A4A, 0x7A4F, 0x2597C, 0x25AA7, 0x25AA7, 0x7AEE, 0x4202, 0x25BAB, 0x7BC6,
    0x7BC9, 0x4227, 0x25C80, 0x7CD2, 0x42A0, 0x7CE8, 0x7CE3, 0x7D00, 0x25F86, 0x7D63,
    0x4301, 0x7DC7, 0x7E02, 0x7E45, 0x4334, 0x26228, 0x26247, 0x4359, 0x262D9, 0x7F7A,
    0x2633E, 0x7F95, 0x7FFA, 0x8005, 0x264DA, 0x26523, 0x8060, 0x265A8, 0x8070, 0x2335F,
    0x43D5, 0x80B2, 0x8103, 0x440B, 0x813E, 0x5AB5, 0x267A7, 0x267B5, 0x23393, 0x2339C,
    0x8201, 0x8204, 0x8F9E, 0x446B, 0x8291, 0x828B, 0x829D, 0x52B3, 0x82B1, 0x82B3,
    0x82BD, 0x82E6, 0x26B3C, 0x82E5, 0x831D, 0x8363, 0x83AD, 0x8323, 0x83BD, 0x83E7,
    0x8457, 0x8353, 0x83CA, 0x83CC, 0x83DC, 0x26C36, 0x26D6B, 0x26CD5, 0x452B, 0x84F1,
    0x84F3, 0x8516, 0x273CA, 0x8564, 0x26F2C, 0x455D, 0x4561, 0x26FB1, 0x270D2, 0x456B,
    0x8650, 0x865C, 0x8667, 0x8669, 0x86A9, 0x8688, 0x870E, 0x86E2, 0x8779, 0x8728,
    0x876B, 0x8786, 0x45D7, 0x87E1, 0x8801, 0x45F9, 0x8860, 0x8863, 0x27667, 0x88D7,
];

const CANONICAL_POOL_3: [u32; 87] = [
    0x88DE, 0x4635, 0x88FA, 0x34BB, 0x278AE, 0x27966, 0x46BE, 0x46C7, 0x8AA0, 0x8AED,
    0x8B8A, 0x8C55, 0x27CA8, 0x8CAB, 0x8CC1, 0x8D1B, 0x8D77, 0x27F2F, 0x20804, 0x8DCB,
    0x8DBC, 0x8DF0, 0x208DE, 0x8ED4, 0x8F38, 0x285D2, 0x285ED, 0x9094, 0x90F1, 0x9111,
    0x2872E, 0x911B, 0x9238, 0x92D7, 0x92D8, 0x927C, 0x93F9, 0x9415, 0x28BFA, 0x958B,
    0x4995, 0x95B7, 0x28D77, 0x49E6, 0x96C3, 0x5DB2, 0x9723, 0x29145, 0x2921A, 0x4A6E,
    0x4A76, 0x97E0, 0x2940A, 0x4AB2, 0x29496, 0x980B, 0x980B, 0x9829, 0x295B6, 0x98E2,
    0x4B33, 0x9929, 0x99A7, 0x99C2, 0x99FE, 0x4BCE, 0x29B30, 0x9B12, 0x9C40, 0x9CFD,
    0x4CCE, 0x4CED, 0x9D67, 0x2A0CE, 0x4CF8, 0x2A105, 0x2A20E, 0x2A291, 0x9EBB, 0x4D56,
    0x9EF9, 0x9EFE, 0x9F05, 0x9F0F, 0x9F16, 0x9F3B, 0x2A600,
];

/// The canonical decompositions, one after another.
pub closed spec fn canonical_pool_data() -> Seq<u32> {
    Seq::empty() + CANONICAL_POOL_0@ + CANONICAL_POOL_1@ + CANONICAL_POOL_2@ + CANONICAL_POOL_3@
}

/// The entries of `canonical_pool_data`, in one vector.
pub fn canonical_pool() -> (r: Vec<u32>)
    ensures
        r@ == canonical_pool_data(),
{
    let mut v: Vec<u32> = Vec::new();
    push_all(&mut v, &CANONICAL_POOL_0);
    push_all(&mut v, &CANONICAL_POOL_1);
    push_all(&mut v, &CANONICAL_POOL_2);
    push_all(&mut v, &CANONICAL_POOL_3);
    v
}

const COMPATIBILITY_KEYS_0: [u32; 1000] = [
    0x00A0, 0x00A8, 0x00AA, 0x00AF, 0x00B2, 0x00B3, 0x00B4, 0x00B5, 0x00B8, 0x00B9,
    0x00BA, 0x00BC, 0x00BD, 0x00BE, 0x0132, 0x0133, 0x013F, 0x0140, 0x0149, 0x017F,
    0x01C4, 0x01C5, 0x01C6, 0x01C7, 0x01C8, 0x01C9, 0x01CA, 0x01CB, 0x01CC, 0x01F1,
    0x01F2, 0x01F3, 0x02B0, 0x02B1, 0x02B2, 0x02B3, 0x02B4, 0x02B5, 0x02B6, 0x02B7,
    0x02B8, 0x02D8, 0x02D9, 0x02DA, 0x02DB, 0x02DC, 0x02DD, 0x02E0, 0x02E1, 0x02E2,
    0x02E3, 0x02E4, 0x037A, 0x0384, 0x03D0, 0x03D1, 0x03D2, 0x03D5, 0x03D6, 0x03F0,
    0x03F1, 0x03F2, 0x03F4, 0x03F5, 0x03F9, 0x0587, 0x0675, 0x0676, 0x0677, 0x0678,
    0x0E33, 0x0EB3, 0x0EDC, 0x0EDD, 0x0F0C, 0x0F77, 0x0F79, 0x10FC, 0x1D2C, 0x1D2D,
    0x1D2E, 0x1D30, 0x1D31, 0x1D32, 0x1D33, 0x1D34, 0x1D35, 0x1D36, 0x1D37, 0x1D38,
    0x1D39, 0x1D3A, 0x1D3C, 0x1D3D, 0x1D3E, 0x1D3F, 0x1D40, 0x1D41, 0x1D42, 0x1D43,
    0x1D44, 0x1D45, 0x1D46, 0x1D47, 0x1D48, 0x1D49, 0x1D4A, 0x1D4B, 0x1D4C, 0x1D4D,
    0x1D4F, 0x1D50, 0x1D51, 0x1D52, 0x1D53, 0x1D54, 0x1D55, 0x1D56, 0x1D57, 0x1D58,
    0x1D59, 0x1D5A, 0x1D5B, 0x1D5C, 0x1D5D, 0x1D5E, 0x1D5F, 0x1D60, 0x1D61, 0x1D62,
    0x1D63, 0x1D64, 0x1D65, 0x1D66, 0x1D67, 0x1D68, 0x1D69, 0x1D6A, 0x1D78, 0x1D9B,
    0x1D9C, 0x1D9D, 0x1D9E, 0x1D9F, 0x1DA0, 0x1DA1, 0x1DA2, 0x1DA3, 0x1DA4, 0x1DA5,
    0x1DA6, 0x1DA7, 0x1DA8, 0x1DA9, 0x1DAA, 0x1DAB, 0x1DAC, 0x1DAD, 0x1DAE, 0x1DAF,
    0x1DB0, 0x1DB1, 0x1DB2, 0x1DB3, 0x1DB4, 0x1DB5, 0x1DB6, 0x1DB7, 0x1DB8, 0x1DB9,
    0x1DBA, 0x1DBB, 0x1DBC, 0x1DBD, 0x1DBE, 0x1DBF, 0x1E9A, 0x1FBD, 0x1FBF, 0x1FC0,
    0x1FFE, 0x2002, 0x2003, 0x2004, 0x2005, 0x2006, 0x2007, 0x2008, 0x2009, 0x200A,
    0x2011, 0x2017, 0x2024, 0x2025, 0x2026, 0x202F, 0x2033, 0x2034, 0x2036, 0x2037,
    0x203C, 0x203E, 0x2047, 0x2048, 0x2049, 0x2057, 0x205F, 0x2070, 0x2071, 0x2074,
    0x2075, 0x2076, 0x2077, 0x2078, 0x2079, 0x207A, 0x207B, 0x207C, 0x207D, 0x207E,
    0x207F, 0x2080, 0x2081, 0x2082, 0x2083, 0x2084, 0x2085, 0x2086, 0x2087, 0x2088,
    0x2089, 0x208A, 0x208B, 0x208C, 0x208D, 0x208E, 0x2090, 0x2091, 0x2092, 0x2093,
    0x2094, 0x2095, 0x2096, 0x2097, 0x2098, 0x2099, 0x209A, 0x209B, 0x209C, 0x20A8,
    0x2100, 0x2101, 0x2102, 0x2103, 0x2105, 0x2106, 0x2107, 0x2109, 0x210A, 0x210B,
    0x210C, 0x210D, 0x210E, 0x210F, 0x2110, 0x2111, 0x2112, 0x2113, 0x2115, 0x2116,
    0x2119, 0x211A, 0x211B, 0x211C, 0x211D, 0x2120, 0x2121, 0x2122, 0x2124, 0x2128,
    0x212C, 0x212D, 0x212F, 0x2130, 0x2131, 0x2133, 0x2134, 0x2135, 0x2136, 0x2137,
    0x2138, 0x2139, 0x213B, 0x213C, 0x213D, 0x213E, 0x213F, 0x2140, 0x2145, 0x2146,
    0x2147, 0x2148, 0x2149, 0x2150, 0x2151, 0x2152, 0x2153, 0x2154, 0x2155, 0x2156,
    0x2157, 0x2158, 0x2159, 0x215A, 0x215B, 0x215C, 0x215D, 0x215E, 0x215F, 0x2160,
    0x2161, 0x2162, 0x2163, 0x2164, 0x2165, 0x2166, 0x2167, 0x2168, 0x2169, 0x216A,
    0x216B, 0x216C, 0x216D, 0x216E, 0x216F, 0x2170, 0x2171, 0x2172, 0x2173, 0x2174,
    0x2175, 0x2176, 0x2177, 0x2178, 0x2179, 0x217A, 0x217B, 0x217C, 0x217D, 0x217E,
    0x217F, 0x2189, 0x222C, 0x222D, 0x222F, 0x2230, 0x2460, 0x2461, 0x2462, 0x2463,
    0x2464, 0x2465, 0x2466, 0x2467, 0x2468, 0x2469, 0x246A, 0x246B, 0x246C, 0x246D,
    0x246E, 0x246F, 0x2470, 0x2471, 0x2472, 0x2473, 0x2474, 0x2475, 0x2476, 0x2477,
    0x2478, 0x2479, 0x247A, 0x247B, 0x247C, 0x247D, 0x247E, 0x247F, 0x2480, 0x2481,
    0x2482, 0x2483, 0x2484, 0x2485, 0x2486, 0x2487, 0x2488, 0x2489, 0x248A, 0x248B,
    0x248C, 0x248D, 0x248E, 0x248F, 0x2490, 0x2491, 0x2492, 0x2493, 0x2494, 0x2495,
    0x2496, 0x2497, 0x2498, 0x2499, 0x249A, 0x249B, 0x249C, 0x249D, 0x249E, 0x249F,
    0x24A0, 0x24A1, 0x24A2, 0x24A3, 0x24A4, 0x24A5, 0x24A6, 0x24A7, 0x24A8, 0x24A9,
    0x24AA, 0x24AB, 0x24AC, 0x24AD, 0x24AE, 0x24AF, 0x24B0, 0x24B1, 0x24B2, 0x24B3,
    0x24B4, 0x24B5, 0x24B6, 0x24B7, 0x24B8, 0x24B9, 0x24BA, 0x24BB, 0x24BC, 0x24BD,
    0x24BE, 0x24BF, 0x24C0, 0x24C1, 0x24C2, 0x24C3, 0x24C4, 0x24C5, 0x24C6, 0x24C7,
    0x24C8, 0x24C9, 0x24CA, 0x24CB, 0x24CC, 0x24CD, 0x24CE, 0x24CF, 0x24D0, 0x24D1,
    0x24D2, 0x24D3, 0x24D4, 0x24D5, 0x24D6, 0x24D7, 0x24D8, 0x24D9, 0x24DA, 0x24DB,
    0x24DC, 0x24DD, 0x24DE, 0x24DF, 0x24E0, 0x24E1, 0x24E2, 0x24E3, 0x24E4, 0x24E5,
    0x24E6, 0x24E7, 0x24E8, 0x24E9, 0x24EA, 0x2A0C, 0x2A74, 0x2A75, 0x2A76, 0x2C7C,
    0x2C7D, 0x2D6F, 0x2E9F, 0x2EF3, 0x2F00, 0x2F01, 0x2F02, 0x2F03, 0x2F04, 0x2F05,
    0x2F06, 0x2F07, 0x2F08, 0x2F09, 0x2F0A, 0x2F0B, 0x2F0C, 0x2F0D, 0x2F0E, 0x2F0F,
    0x2F10, 0x2F11, 0x2F12, 0x2F13, 0x2F14, 0x2F15, 0x2F16, 0x2F17, 0x2F18, 0x2F19,
    0x2F1A, 0x2F1B, 0x2F1C, 0x2F1D, 0x2F1E, 0x2F1F, 0x2F20, 0x2F21, 0x2F22, 0x2F23,
    0x2F24, 0x2F25, 0x2F26, 0x2F27, 0x2F28, 0x2F29, 0x2F2A, 0x2F2B, 0x2F2C, 0x2F2D,
    0x2F2E, 0x2F2F, 0x2F30, 0x2F31, 0x2F32, 0x2F33, 0x2F34, 0x2F35, 0x2F36, 0x2F37,
    0x2F38, 0x2F39, 0x2F3A, 0x2F3B, 0x2F3C, 0x2F3D, 0x2F3E, 0x2F3F, 0x2F40, 0x2F41,
    0x2F42, 0x2F43, 0x2F44, 0x2F45, 0x2F46, 0x2F47, 0x2F48, 0x2F49, 0x2F4A, 0x2F4B,
    0x2F4C, 0x2F4D, 0x2F4E, 0x2F4F, 0x2F50, 0x2F51, 0x2F52, 0x2F53, 0x2F54, 0x2F55,
    0x2F56, 0x2F57, 0x2F58, 0x2F59, 0x2F5A, 0x2F5B, 0x2F5C, 0x2F5D, 0x2F5E, 0x2F5F,
    0x2F60, 0x2F61, 0x2F62, 0x2F63, 0x2F64, 0x2F65, 0x2F66, 0x2F67, 0x2F68, 0x2F69,
    0x2F6A, 0x2F6B, 0x2F6C, 0x2F6D, 0x2F6E, 0x2F6F, 0x2F70, 0x2F71, 0x2F72, 0x2F73,
    0x2F74, 0x2F75, 0x2F76, 0x2F77, 0x2F78, 0x2F79, 0x2F7A, 0x2F7B, 0x2F7C, 0x2F7D,
    0x2F7E, 0x2F7F, 0x2F80, 0x2F81, 0x2F82, 0x2F83, 0x2F84, 0x2F85, 0x2F86, 0x2F87,
    0x2F88, 0x2F89, 0x2F8A, 0x2F8B, 0x2F8C, 0x2F8D, 0x2F8E, 0x2F8F, 0x2F90, 0x2F91,
    0x2F92, 0x2F93, 0x2F94, 0x2F95, 0x2F96, 0x2F97, 0x2F98, 0x2F99, 0x2F9A, 0x2F9B,
    0x2F9C, 0x2F9D, 0x2F9E, 0x2F9F, 0x2FA0, 0x2FA1, 0x2FA2, 0x2FA3, 0x2FA4, 0x2FA5,
    0x2FA6, 0x2FA7, 0x2FA8, 0x2FA9, 0x2FAA, 0x2FAB, 0x2FAC, 0x2FAD, 0x2FAE, 0x2FAF,
    0x2FB0, 0x2FB1, 0x2FB2, 0x2FB3, 0x2FB4, 0x2FB5, 0x2FB6, 0x2FB7, 0x2FB8, 0x2FB9,
    0x2FBA, 0x2FBB, 0x2FBC, 0x2FBD, 0x2FBE, 0x2FBF, 0x2FC0, 0x2FC1, 0x2FC2, 0x2FC3,
    0x2FC4, 0x2FC5, 0x2FC6, 0x2FC7, 0x2FC8, 0x2FC9, 0x2FCA, 0x2FCB, 0x2FCC, 0x2FCD,
    0x2FCE, 0x2FCF, 0x2FD0, 0x2FD1, 0x2FD2, 0x2FD3, 0x2FD4, 0x2FD5, 0x3000, 0x3036,
    0x3038, 0x3039, 0x303A, 0x309B, 0x309C, 0x309F, 0x30FF, 0x3131, 0x3132, 0x3133,
    0x3134, 0x3135, 0x3136, 0x3137, 0x3138, 0x3139, 0x313A, 0x313B, 0x313C, 0x313D,
    0x313E, 0x313F, 0x3140, 0x3141, 0x3142, 0x3143, 0x3144, 0x3145, 0x3146, 0x3147,
    0x3148, 0x3149, 0x314A, 0x314B, 0x314C, 0x314D, 0x314E, 0x314F, 0x3150, 0x3151,
    0x3152, 0x3153, 0x3154, 0x3155, 0x3156, 0x3157, 0x3158, 0x3159, 0x315A, 0x315B,
    0x315C, 0x315D, 0x315E, 0x315F, 0x3160, 0x3161, 0x3162, 0x3163, 0x3164, 0x3165,
    0x3166, 0x3167, 0x3168, 0x3169, 0x316A, 0x316B, 0x316C, 0x316D, 0x316E, 0x316F,
    0x3170, 0x3171, 0x3172, 0x3173, 0x3174, 0x3175, 0x3176, 0x3177, 0x3178, 0x3179,
    0x317A, 0x317B, 0x317C, 0x317D, 0x317E, 0x317F, 0x3180, 0x3181, 0x3182, 0x3183,
    0x3184, 0x3185, 0x3186, 0x3187, 0x3188, 0x3189, 0x318A, 0x318B, 0x318C, 0x318D,
    0x318E, 0x3192, 0x3193, 0x3194, 0x3195, 0x3196, 0x3197, 0x3198, 0x3199, 0x319A,
    0x319B, 0x319C, 0x319D, 0x319E, 0x319F, 0x3200, 0x3201, 0x3202, 0x3203, 0x3204,
    0x3205, 0x3206, 0x3207, 0x3208, 0x3209, 0x320A, 0x320B, 0x320C, 0x320D, 0x320E,
    0x320F, 0x3210, 0x3211, 0x3212, 0x3213, 0x3214, 0x3215, 0x3216, 0x3217, 0x3218,
    0x3219, 0x321A, 0x321B, 0x321C, 0x321D, 0x321E, 0x3220, 0x3221, 0x3222, 0x3223,
    0x3224, 0x3225, 0x3226, 0x3227, 0x3228, 0x3229, 0x322A, 0x322B, 0x322C, 0x322D,
    0x322E, 0x322F, 0x3230, 0x3231, 0x3232, 0x3233, 0x3234, 0x3235, 0x3236, 0x3237,
    0x3238, 0x3239, 0x323A, 0x323B, 0x323C, 0x323D, 0x323E, 0x323F, 0x3240, 0x3241,
    0x3242, 0x3243, 0x3244, 0x3245, 0x3246, 0x3247, 0x3250, 0x3251, 0x3252, 0x3253,
    0x3254, 0x3255, 0x3256, 0x3257, 0x3258, 0x3259, 0x325A, 0x325B, 0x325C, 0x325D,
    0x325E, 0x325F, 0x3260, 0x3261, 0x3262, 0x3263, 0x3264, 0x3265, 0x3266, 0x3267,
    0x3268, 0x3269, 0x326A, 0x326B, 0x326C, 0x326D, 0x326E, 0x326F, 0x3270, 0x3271,
    0x3272, 0x3273, 0x3274, 0x3275, 0x3276, 0x3277, 0x3278, 0x3279, 0x327A, 0x327B,
    0x327C, 0x327D, 0x327E, 0x3280, 0x3281, 0x3282, 0x3283, 0x3284, 0x3285, 0x3286,
    0x3287, 0x3288, 0x3289, 0x328A, 0x328B, 0x328C, 0x328D, 0x328E, 0x328F, 0x3290,
    0x3291, 0x3292, 0x3293, 0x3294, 0x3295, 0x3296, 0x3297, 0x3298, 0x3299, 0x329A,
    0x329B, 0x329C, 0x329D, 0x329E, 0x329F, 0x32A0, 0x32A1, 0x32A2, 0x32A3, 0x32A4,
    0x32A5, 0x32A6, 0x32A7, 0x32A8, 0x32A9, 0x32AA, 0x32AB, 0x32AC, 0x32AD, 0x32AE,
];

const COMPATIBILITY_KEYS_1: [u32; 1000] = [
    0x32AF, 0x32B0, 0x32B1, 0x32B2, 0x32B3, 0x32B4, 0x32B5, 0x32B6, 0x32B7, 0x32B8,
    0x32B9, 0x32BA, 0x32BB, 0x32BC, 0x32BD, 0x32BE, 0x32BF, 0x32C0, 0x32C1, 0x32C2,
    0x32C3, 0x32C4, 0x32C5, 0x32C6, 0x32C7, 0x32C8, 0x32C9, 0x32CA, 0x32CB, 0x32CC,
    0x32CD, 0x32CE, 0x32CF, 0x32D0, 0x32D1, 0x32D2, 0x32D3, 0x32D4, 0x32D5, 0x32D6,
    0x32D7, 0x32D8, 0x32D9, 0x32DA, 0x32DB, 0x32DC, 0x32DD, 0x32DE, 0x32DF, 0x32E0,
    0x32E1, 0x32E2, 0x32E3, 0x32E4, 0x32E5, 0x32E6, 0x32E7, 0x32E8, 0x32E9, 0x32EA,
    0x32EB, 0x32EC, 0x32ED, 0x32EE, 0x32EF, 0x32F0, 0x32F1, 0x32F2, 0x32F3, 0x32F4,
    0x32F5, 0x32F6, 0x32F7, 0x32F8, 0x32F9, 0x32FA, 0x32FB, 0x32FC, 0x32FD, 0x32FE,
    0x32FF, 0x3300, 0x3301, 0x3302, 0x3303, 0x3304, 0x3305, 0x3306, 0x3307, 0x3308,
    0x3309, 0x330A, 0x330B, 0x330C, 0x330D, 0x330E, 0x330F, 0x3310, 0x3311, 0x3312,
    0x3313, 0x3314, 0x3315, 0x3316, 0x3317, 0x3318, 0x3319, 0x331A, 0x331B, 0x331C,
    0x331D, 0x331E, 0x331F, 0x3320, 0x3321, 0x3322, 0x3323, 0x3324, 0x3325, 0x3326,
    0x3327, 0x3328, 0x3329, 0x332A, 0x332B, 0x332C, 0x332D, 0x332E, 0x332F, 0x3330,
    0x3331, 0x3332, 0x3333, 0x3334, 0x3335, 0x3336, 0x3337, 0x3338, 0x3339, 0x333A,
    0x333B, 0x333C, 0x333D, 0x333E, 0x333F, 0x3340, 0x3341, 0x3342, 0x3343, 0x3344,
    0x3345, 0x3346, 0x3347, 0x3348, 0x3349, 0x334A, 0x334B, 0x334C, 0x334D, 0x334E,
    0x334F, 0x3350, 0x3351, 0x3352, 0x3353, 0x3354, 0x3355, 0x3356, 0x3357, 0x3358,
    0x3359, 0x335A, 0x335B, 0x335C, 0x335D, 0x335E, 0x335F, 0x3360, 0x3361, 0x3362,
    0x3363, 0x3364, 0x3365, 0x3366, 0x3367, 0x3368, 0x3369, 0x336A, 0x336B, 0x336C,
    0x336D, 0x336E, 0x336F, 0x3370, 0x3371, 0x3372, 0x3373, 0x3374, 0x3375, 0x3376,
    0x3377, 0x3378, 0x3379, 0x337A, 0x337B, 0x337C, 0x337D, 0x337E, 0x337F, 0x3380,
    0x3381, 0x3382, 0x3383, 0x3384, 0x3385, 0x3386, 0x3387, 0x3388, 0x3389, 0x338A,
    0x338B, 0x338C, 0x338D, 0x338E, 0x338F, 0x3390, 0x3391, 0x3392, 0x3393, 0x3394,
    0x3395, 0x3396, 0x3397, 0x3398, 0x3399, 0x339A, 0x339B, 0x339C, 0x339D, 0x339E,
    0x339F, 0x33A0, 0x33A1, 0x33A2, 0x33A3, 0x33A4, 0x33A5, 0x33A6, 0x33A7, 0x33A8,
    0x33A9, 0x33AA, 0x33AB, 0x33AC, 0x33AD, 0x33AE, 0x33AF, 0x33B0, 0x33B1, 0x33B2,
    0x33B3, 0x33B4, 0x33B5, 0x33B6, 0x33B7, 0x33B8, 0x33B9, 0x33BA, 0x33BB, 0x33BC,
    0x33BD, 0x33BE, 0x33BF, 0x33C0, 0x33C1, 0x33C2, 0x33C3, 0x33C4, 0x33C5, 0x33C6,
    0x33C7, 0x33C8, 0x33C9, 0x33CA, 0x33CB, 0x33CC, 0x33CD, 0x33CE, 0x33CF, 0x33D0,
    0x33D1, 0x33D2, 0x33D3, 0x33D4, 0x33D5, 0x33D6, 0x33D7, 0x33D8, 0x33D9, 0x33DA,
    0x33DB, 0x33DC, 0x33DD, 0x33DE, 0x33DF, 0x33E0, 0x33E1, 0x33E2, 0x33E3, 0x33E4,
    0x33E5, 0x33E6, 0x33E7, 0x33E8, 0x33E9, 0x33EA, 0x33EB, 0x33EC, 0x33ED, 0x33EE,
    0x33EF, 0x33F0, 0x33F1, 0x33F2, 0x33F3, 0x33F4, 0x33F5, 0x33F6, 0x33F7, 0x33F8,
    0x33F9, 0x33FA, 0x33FB, 0x33FC, 0x33FD, 0x33FE, 0x33FF, 0xA69C, 0xA69D, 0xA770,
    0xA7F2, 0xA7F3, 0xA7F4, 0xA7F8, 0xA7F9, 0xAB5C, 0xAB5D, 0xAB5E, 0xAB5F, 0xAB69,
    0xFB00, 0xFB01, 0xFB02, 0xFB03, 0xFB04, 0xFB05, 0xFB06, 0xFB13, 0xFB14, 0xFB15,
    0xFB16, 0xFB17, 0xFB20, 0xFB21, 0xFB22, 0xFB23, 0xFB24, 0xFB25, 0xFB26, 0xFB27,
    0xFB28, 0xFB29, 0xFB4F, 0xFB50, 0xFB51, 0xFB52, 0xFB53, 0xFB54, 0xFB55, 0xFB56,
    0xFB57, 0xFB58, 0xFB59, 0xFB5A, 0xFB5B, 0xFB5C, 0xFB5D, 0xFB5E, 0xFB5F, 0xFB60,
    0xFB61, 0xFB62, 0xFB63, 0xFB64, 0xFB65, 0xFB66, 0xFB67, 0xFB68, 0xFB69, 0xFB6A,
    0xFB6B, 0xFB6C, 0xFB6D, 0xFB6E, 0xFB6F, 0xFB70, 0xFB71, 0xFB72, 0xFB73, 0xFB74,
    0xFB75, 0xFB76, 0xFB77, 0xFB78, 0xFB79, 0xFB7A, 0xFB7B, 0xFB7C, 0xFB7D, 0xFB7E,
    0xFB7F, 0xFB80, 0xFB81, 0xFB82, 0xFB83, 0xFB84, 0xFB85, 0xFB86, 0xFB87, 0xFB88,
    0xFB89, 0xFB8A, 0xFB8B, 0xFB8C, 0xFB8D, 0xFB8E, 0xFB8F, 0xFB90, 0xFB91, 0xFB92,
    0xFB93, 0xFB94, 0xFB95, 0xFB96, 0xFB97, 0xFB98, 0xFB99, 0xFB9A, 0xFB9B, 0xFB9C,
    0xFB9D, 0xFB9E, 0xFB9F, 0xFBA0, 0xFBA1, 0xFBA2, 0xFBA3, 0xFBA4, 0xFBA5, 0xFBA6,
    0xFBA7, 0xFBA8, 0xFBA9, 0xFBAA, 0xFBAB, 0xFBAC, 0xFBAD, 0xFBAE, 0xFBAF, 0xFBB0,
    0xFBB1, 0xFBD3, 0xFBD4, 0xFBD5, 0xFBD6, 0xFBD7, 0xFBD8, 0xFBD9, 0xFBDA, 0xFBDB,
    0xFBDC, 0xFBDD, 0xFBDE, 0xFBDF, 0xFBE0, 0xFBE1, 0xFBE2, 0xFBE3, 0xFBE4, 0xFBE5,
    0xFBE6, 0xFBE7, 0xFBE8, 0xFBE9, 0xFBEA, 0xFBEB, 0xFBEC, 0xFBED, 0xFBEE, 0xFBEF,
    0xFBF0, 0xFBF1, 0xFBF2, 0xFBF3, 0xFBF4, 0xFBF5, 0xFBF6, 0xFBF7, 0xFBF8, 0xFBF9,
    0xFBFA, 0xFBFB, 0xFBFC, 0xFBFD, 0xFBFE, 0xFBFF, 0xFC00, 0xFC01, 0xFC02, 0xFC03,
    0xFC04, 0xFC05, 0xFC06, 0xFC07, 0xFC08, 0xFC09, 0xFC0A, 0xFC0B, 0xFC0C, 0xFC0D,
    0xFC0E, 0xFC0F, 0xFC10, 0xFC11, 0xFC12, 0xFC13, 0xFC14, 0xFC15, 0xFC16, 0xFC17,
    0xFC18, 0xFC19, 0xFC1A, 0xFC1B, 0xFC1C, 0xFC1D, 0xFC1E, 0xFC1F, 0xFC20, 0xFC21,
    0xFC22, 0xFC23, 0xFC24, 0xFC25, 0xFC26, 0xFC27, 0xFC28, 0xFC29, 0xFC2A, 0xFC2B,
    0xFC2C, 0xFC2D, 0xFC2E, 0xFC2F, 0xFC30, 0xFC31, 0xFC32, 0xFC33, 0xFC34, 0xFC35,
    0xFC36, 0xFC37, 0xFC38, 0xFC39, 0xFC3A, 0xFC3B, 0xFC3C, 0xFC3D, 0xFC3E, 0xFC3F,
    0xFC40, 0xFC41, 0xFC42, 0xFC43, 0xFC44, 0xFC45, 0xFC46, 0xFC47, 0xFC48, 0xFC49,
    0xFC4A, 0xFC4B, 0xFC4C, 0xFC4D, 0xFC4E, 0xFC4F, 0xFC50, 0xFC51, 0xFC52, 0xFC53,
    0xFC54, 0xFC55, 0xFC56, 0xFC57, 0xFC58, 0xFC59, 0xFC5A, 0xFC5B, 0xFC5C, 0xFC5D,
    0xFC5E, 0xFC5F, 0xFC60, 0xFC61, 0xFC62, 0xFC63, 0xFC64, 0xFC65, 0xFC66, 0xFC67,
    0xFC68, 0xFC69, 0xFC6A, 0xFC6B, 0xFC6C, 0xFC6D, 0xFC6E, 0xFC6F, 0xFC70, 0xFC71,
    0xFC72, 0xFC73, 0xFC74, 0xFC75, 0xFC76, 0xFC77, 0xFC78, 0xFC79, 0xFC7A, 0xFC7B,
    0xFC7C, 0xFC7D, 0xFC7E, 0xFC7F, 0xFC80, 0xFC81, 0xFC82, 0xFC83, 0xFC84, 0xFC85,
    0xFC86, 0xFC87, 0xFC88, 0xFC89, 0xFC8A, 0xFC8B, 0xFC8C, 0xFC8D, 0xFC8E, 0xFC8F,
    0xFC90, 0xFC91, 0xFC92, 0xFC93, 0xFC94, 0xFC95, 0xFC96, 0xFC97, 0xFC98, 0xFC99,
    0xFC9A, 0xFC9B, 0xFC9C, 0xFC9D, 0xFC9E, 0xFC9F, 0xFCA0, 0xFCA1, 0xFCA2, 0xFCA3,
    0xFCA4, 0xFCA5, 0xFCA6, 0xFCA7, 0xFCA8, 0xFCA9, 0xFCAA, 0xFCAB, 0xFCAC, 0xFCAD,
    0xFCAE, 0xFCAF, 0xFCB0, 0xFCB1, 0xFCB2, 0xFCB3, 0xFCB4, 0xFCB5, 0xFCB6, 0xFCB7,
    0xFCB8, 0xFCB9, 0xFCBA, 0xFCBB, 0xFCBC, 0xFCBD, 0xFCBE, 0xFCBF, 0xFCC0, 0xFCC1,
    0xFCC2, 0xFCC3, 0xFCC4, 0xFCC5, 0xFCC6, 0xFCC7, 0xFCC8, 0xFCC9, 0xFCCA, 0xFCCB,
    0xFCCC, 0xFCCD, 0xFCCE, 0xFCCF, 0xFCD0, 0xFCD1, 0xFCD2, 0xFCD3, 0xFCD4, 0xFCD5,
    0xFCD6, 0xFCD7, 0xFCD8, 0xFCD9, 0xFCDA, 0xFCDB, 0xFCDC, 0xFCDD, 0xFCDE, 0xFCDF,
    0xFCE0, 0xFCE1, 0xFCE2, 0xFCE3, 0xFCE4, 0xFCE5, 0xFCE6, 0xFCE7, 0xFCE8, 0xFCE9,
    0xFCEA, 0xFCEB, 0xFCEC, 0xFCED, 0xFCEE, 0xFCEF, 0xFCF0, 0xFCF1, 0xFCF2, 0xFCF3,
    0xFCF4, 0xFCF5, 0xFCF6, 0xFCF7, 0xFCF8, 0xFCF9, 0xFCFA, 0xFCFB, 0xFCFC, 0xFCFD,
    0xFCFE, 0xFCFF, 0xFD00, 0xFD01, 0xFD02, 0xFD03, 0xFD04, 0xFD05, 0xFD06, 0xFD07,
    0xFD08, 0xFD09, 0xFD0A, 0xFD0B, 0xFD0C, 0xFD0D, 0xFD0E, 0xFD0F, 0xFD10, 0xFD11,
    0xFD12, 0xFD13, 0xFD14, 0xFD15, 0xFD16, 0xFD17, 0xFD18, 0xFD19, 0xFD1A, 0xFD1B,
    0xFD1C, 0xFD1D, 0xFD1E, 0xFD1F, 0xFD20, 0xFD21, 0xFD22, 0xFD23, 0xFD24, 0xFD25,
    0xFD26, 0xFD27, 0xFD28, 0xFD29, 0xFD2A, 0xFD2B, 0xFD2C, 0xFD2D, 0xFD2E, 0xFD2F,
    0xFD30, 0xFD31, 0xFD32, 0xFD33, 0xFD34, 0xFD35, 0xFD36, 0xFD37, 0xFD38, 0xFD39,
    0xFD3A, 0xFD3B, 0xFD3C, 0xFD3D, 0xFD50, 0xFD51, 0xFD52, 0xFD53, 0xFD54, 0xFD55,
    0xFD56, 0xFD57, 0xFD58, 0xFD59, 0xFD5A, 0xFD5B, 0xFD5C, 0xFD5D, 0xFD5E, 0xFD5F,
    0xFD60, 0xFD61, 0xFD62, 0xFD63, 0xFD64, 0xFD65, 0xFD66, 0xFD67, 0xFD68, 0xFD69,
    0xFD6A, 0xFD6B, 0xFD6C, 0xFD6D, 0xFD6E, 0xFD6F, 0xFD70, 0xFD71, 0xFD72, 0xFD73,
    0xFD74, 0xFD75, 0xFD76, 0xFD77, 0xFD78, 0xFD79, 0xFD7A, 0xFD7B, 0xFD7C, 0xFD7D,
    0xFD7E, 0xFD7F, 0xFD80, 0xFD81, 0xFD82, 0xFD83, 0xFD84, 0xFD85, 0xFD86, 0xFD87,
    0xFD88, 0xFD89, 0xFD8A, 0xFD8B, 0xFD8C, 0xFD8D, 0xFD8E, 0xFD8F, 0xFD92, 0xFD93,
    0xFD94, 0xFD95, 0xFD96, 0xFD97, 0xFD98, 0xFD99, 0xFD9A, 0xFD9B, 0xFD9C, 0xFD9D,
    0xFD9E, 0xFD9F, 0xFDA0, 0xFDA1, 0xFDA2, 0xFDA3, 0xFDA4, 0xFDA5, 0xFDA6, 0xFDA7,
    0xFDA8, 0xFDA9, 0xFDAA, 0xFDAB, 0xFDAC, 0xFDAD, 0xFDAE, 0xFDAF, 0xFDB0, 0xFDB1,
    0xFDB2, 0xFDB3, 0xFDB4, 0xFDB5, 0xFDB6, 0xFDB7, 0xFDB8, 0xFDB9, 0xFDBA, 0xFDBB,
    0xFDBC, 0xFDBD, 0xFDBE, 0xFDBF, 0xFDC0, 0xFDC1, 0xFDC2, 0xFDC3, 0xFDC4, 0xFDC5,
    0xFDC6, 0xFDC7, 0xFDF0, 0xFDF1, 0xFDF2, 0xFDF3, 0xFDF4, 0xFDF5, 0xFDF6, 0xFDF7,
    0xFDF8, 0xFDF9, 0xFDFA, 0xFDFB, 0xFDFC, 0xFE10, 0xFE11, 0xFE12, 0xFE13, 0xFE14,
    0xFE15, 0xFE16, 0xFE17, 0xFE18, 0xFE19, 0xFE30, 0xFE31, 0xFE32, 0xFE33, 0xFE34,
    0xFE35, 0xFE36, 0xFE37, 0xFE38, 0xFE39, 0xFE3A, 0xFE3B, 0xFE3C, 0xFE3D, 0xFE3E,
    0xFE3F, 0xFE40, 0xFE41, 0xFE42, 0xFE43, 0xFE44, 0xFE47, 0xFE48, 0xFE49, 0xFE4A,
];

const COMPATIBILITY_KEYS_2: [u32; 1000] = [
    0xFE4B, 0xFE4C, 0xFE4D, 0xFE4E, 0xFE4F, 0xFE50, 0xFE51, 0xFE52, 0xFE54, 0xFE55,
    0xFE56, 0xFE57, 0xFE58, 0xFE59, 0xFE5A, 0xFE5B, 0xFE5C, 0xFE5D, 0xFE5E, 0xFE5F,
    0xFE60, 0xFE61, 0xFE62, 0xFE63, 0xFE64, 0xFE65, 0xFE66, 0xFE68, 0xFE69, 0xFE6A,
    0xFE6B, 0xFE70, 0xFE71, 0xFE72, 0xFE74, 0xFE76, 0xFE77, 0xFE78, 0xFE79, 0xFE7A,
    0xFE7B, 0xFE7C, 0xFE7D, 0xFE7E, 0xFE7F, 0xFE80, 0xFE81, 0xFE82, 0xFE83, 0xFE84,
    0xFE85, 0xFE86, 0xFE87, 0xFE88, 0xFE89, 0xFE8A, 0xFE8B, 0xFE8C, 0xFE8D, 0xFE8E,
    0xFE8F, 0xFE90, 0xFE91, 0xFE92, 0xFE93, 0xFE94, 0xFE95, 0xFE96, 0xFE97, 0xFE98,
    0xFE99, 0xFE9A, 0xFE9B, 0xFE9C, 0xFE9D, 0xFE9E, 0xFE9F, 0xFEA0, 0xFEA1, 0xFEA2,
    0xFEA3, 0xFEA4, 0xFEA5, 0xFEA6, 0xFEA7, 0xFEA8, 0xFEA9, 0xFEAA, 0xFEAB, 0xFEAC,
    0xFEAD, 0xFEAE, 0xFEAF, 0xFEB0, 0xFEB1, 0xFEB2, 0xFEB3, 0xFEB4, 0xFEB5, 0xFEB6,
    0xFEB7, 0xFEB8, 0xFEB9, 0xFEBA, 0xFEBB, 0xFEBC, 0xFEBD, 0xFEBE, 0xFEBF, 0xFEC0,
    0xFEC1, 0xFEC2, 0xFEC3, 0xFEC4, 0xFEC5, 0xFEC6, 0xFEC7, 0xFEC8, 0xFEC9, 0xFECA,
    0xFECB, 0xFECC, 0xFECD, 0xFECE, 0xFECF, 0xFED0, 0xFED1, 0xFED2, 0xFED3, 0xFED4,
    0xFED5, 0xFED6, 0xFED7, 0xFED8, 0xFED9, 0xFEDA, 0xFEDB, 0xFEDC, 0xFEDD, 0xFEDE,
    0xFEDF, 0xFEE0, 0xFEE1, 0xFEE2, 0xFEE3, 0xFEE4, 0xFEE5, 0xFEE6, 0xFEE7, 0xFEE8,
    0xFEE9, 0xFEEA, 0xFEEB, 0xFEEC, 0xFEED, 0xFEEE, 0xFEEF, 0xFEF0, 0xFEF1, 0xFEF2,
    0xFEF3, 0xFEF4, 0xFEF5, 0xFEF6, 0xFEF7, 0xFEF8, 0xFEF9, 0xFEFA, 0xFEFB, 0xFEFC,
    0xFF01, 0xFF02, 0xFF03, 0xFF04, 0xFF05, 0xFF06, 0xFF07, 0xFF08, 0xFF09, 0xFF0A,
    0xFF0B, 0xFF0C, 0xFF0D, 0xFF0E, 0xFF0F, 0xFF10, 0xFF11, 0xFF12, 0xFF13, 0xFF14,
    0xFF15, 0xFF16, 0xFF17, 0xFF18, 0xFF19, 0xFF1A, 0xFF1B, 0xFF1C, 0xFF1D, 0xFF1E,
    0xFF1F, 0xFF20, 0xFF21, 0xFF22, 0xFF23, 0xFF24, 0xFF25, 0xFF26, 0xFF27, 0xFF28,
    0xFF29, 0xFF2A, 0xFF2B, 0xFF2C, 0xFF2D, 0xFF2E, 0xFF2F, 0xFF30, 0xFF31, 0xFF32,
    0xFF33, 0xFF34, 0xFF35, 0xFF36, 0xFF37, 0xFF38, 0xFF39, 0xFF3A, 0xFF3B, 0xFF3C,
    0xFF3D, 0xFF3E, 0xFF3F, 0xFF40, 0xFF41, 0xFF42, 0xFF43, 0xFF44, 0xFF45, 0xFF46,
    0xFF47, 0xFF48, 0xFF49, 0xFF4A, 0xFF4B, 0xFF4C, 0xFF4D, 0xFF4E, 0xFF4F, 0xFF50,
    0xFF51, 0xFF52, 0xFF53, 0xFF54, 0xFF55, 0xFF56, 0xFF57, 0xFF58, 0xFF59, 0xFF5A,
    0xFF5B, 0xFF5C, 0xFF5D, 0xFF5E, 0xFF5F, 0xFF60, 0xFF61, 0xFF62, 0xFF63, 0xFF64,
    0xFF65, 0xFF66, 0xFF67, 0xFF68, 0xFF69, 0xFF6A, 0xFF6B, 0xFF6C, 0xFF6D, 0xFF6E,
    0xFF6F, 0xFF70, 0xFF71, 0xFF72, 0xFF73, 0xFF74, 0xFF75, 0xFF76, 0xFF77, 0xFF78,
    0xFF79, 0xFF7A, 0xFF7B, 0xFF7C, 0xFF7D, 0xFF7E, 0xFF7F, 0xFF80, 0xFF81, 0xFF82,
    0xFF83, 0xFF84, 0xFF85, 0xFF86, 0xFF87, 0xFF88, 0xFF89, 0xFF8A, 0xFF8B, 0xFF8C,
    0xFF8D, 0xFF8E, 0xFF8F, 0xFF90, 0xFF91, 0xFF92, 0xFF93, 0xFF94, 0xFF95, 0xFF96,
    0xFF97, 0xFF98, 0xFF99, 0xFF9A, 0xFF9B, 0xFF9C, 0xFF9D, 0xFF9E, 0xFF9F, 0xFFA0,
    0xFFA1, 0xFFA2, 0xFFA3, 0xFFA4, 0xFFA5, 0xFFA6, 0xFFA7, 0xFFA8, 0xFFA9, 0xFFAA,
    0xFFAB, 0xFFAC, 0xFFAD, 0xFFAE, 0xFFAF, 0xFFB0, 0xFFB1, 0xFFB2, 0xFFB3, 0xFFB4,
    0xFFB5, 0xFFB6, 0xFFB7, 0xFFB8, 0xFFB9, 0xFFBA, 0xFFBB, 0xFFBC, 0xFFBD, 0xFFBE,
    0xFFC2, 0xFFC3, 0xFFC4, 0xFFC5, 0xFFC6, 0xFFC7, 0xFFCA, 0xFFCB, 0xFFCC, 0xFFCD,
    0xFFCE, 0xFFCF, 0xFFD2, 0xFFD3, 0xFFD4, 0xFFD5, 0xFFD6, 0xFFD7, 0xFFDA, 0xFFDB,
    0xFFDC, 0xFFE0, 0xFFE1, 0xFFE2, 0xFFE3, 0xFFE4, 0xFFE5, 0xFFE6, 0xFFE8, 0xFFE9,
    0xFFEA, 0xFFEB, 0xFFEC, 0xFFED, 0xFFEE, 0x10781, 0x10782, 0x10783, 0x10784, 0x10785,
    0x10787, 0x10788, 0x10789, 0x1078A, 0x1078B, 0x1078C, 0x1078D, 0x1078E, 0x1078F, 0x10790,
    0x10791, 0x10792, 0x10793, 0x10794, 0x10795, 0x10796, 0x10797, 0x10798, 0x10799, 0x1079A,
    0x1079B, 0x1079C, 0x1079D, 0x1079E, 0x1079F, 0x107A0, 0x107A1, 0x107A2, 0x107A3, 0x107A4,
    0x107A5, 0x107A6, 0x107A7, 0x107A8, 0x107A9, 0x107AA, 0x107AB, 0x107AC, 0x107AD, 0x107AE,
    0x107AF, 0x107B0, 0x107B2, 0x107B3, 0x107B4, 0x107B5, 0x107B6, 0x107B7, 0x107B8, 0x107B9,
    0x107BA, 0x1D400, 0x1D401, 0x1D402, 0x1D403, 0x1D404, 0x1D405, 0x1D406, 0x1D407, 0x1D408,
    0x1D409, 0x1D40A, 0x1D40B, 0x1D40C, 0x1D40D, 0x1D40E, 0x1D40F, 0x1D410, 0x1D411, 0x1D412,
    0x1D413, 0x1D414, 0x1D415, 0x1D416, 0x1D417, 0x1D418, 0x1D419, 0x1D41A, 0x1D41B, 0x1D41C,
    0x1D41D, 0x1D41E, 0x1D41F, 0x1D420, 0x1D421, 0x1D422, 0x1D423, 0x1D424, 0x1D425, 0x1D426,
    0x1D427, 0x1D428, 0x1D429, 0x1D42A, 0x1D42B, 0x1D42C, 0x1D42D, 0x1D42E, 0x1D42F, 0x1D430,
    0x1D431, 0x1D432, 0x1D433, 0x1D434, 0x1D435, 0x1D436, 0x1D437, 0x1D438, 0x1D439, 0x1D43A,
    0x1D43B, 0x1D43C, 0x1D43D, 0x1D43E, 0x1D43F, 0x1D440, 0x1D441, 0x1D442, 0x1D443, 0x1D444,
    0x1D445, 0x1D446, 0x1D447, 0x1D448, 0x1D449, 0x1D44A, 0x1D44B, 0x1D44C, 0x1D44D, 0x1D44E,
    0x1D44F, 0x1D450, 0x1D451, 0x1D452, 0x1D453, 0x1D454, 0x1D456, 0x1D457, 0x1D458, 0x1D459,
    0x1D45A, 0x1D45B, 0x1D45C, 0x1D45D, 0x1D45E, 0x1D45F, 0x1D460, 0x1D461, 0x1D462, 0x1D463,
    0x1D464, 0x1D465, 0x1D466, 0x1D467, 0x1D468, 0x1D469, 0x1D46A, 0x1D46B, 0x1D46C, 0x1D46D,
    0x1D46E, 0x1D46F, 0x1D470, 0x1D471, 0x1D472, 0x1D473, 0x1D474, 0x1D475, 0x1D476, 0x1D477,
    0x1D478, 0x1D479, 0x1D47A, 0x1D47B, 0x1D47C, 0x1D47D, 0x1D47E, 0x1D47F, 0x1D480, 0x1D481,
    0x1D482, 0x1D483, 0x1D484, 0x1D485, 0x1D486, 0x1D487, 0x1D488, 0x1D489, 0x1D48A, 0x1D48B,
    0x1D48C, 0x1D48D, 0x1D48E, 0x1D48F, 0x1D490, 0x1D491, 0x1D492, 0x1D493, 0x1D494, 0x1D495,
    0x1D496, 0x1D497, 0x1D498, 0x1D499, 0x1D49A, 0x1D49B, 0x1D49C, 0x1D49E, 0x1D49F, 0x1D4A2,
    0x1D4A5, 0x1D4A6, 0x1D4A9, 0x1D4AA, 0x1D4AB, 0x1D4AC, 0x1D4AE, 0x1D4AF, 0x1D4B0, 0x1D4B1,
    0x1D4B2, 0x1D4B3, 0x1D4B4, 0x1D4B5, 0x1D4B6, 0x1D4B7, 0x1D4B8, 0x1D4B9, 0x1D4BB, 0x1D4BD,
    0x1D4BE, 0x1D4BF, 0x1D4C0, 0x1D4C1, 0x1D4C2, 0x1D4C3, 0x1D4C5, 0x1D4C6, 0x1D4C7, 0x1D4C8,
    0x1D4C9, 0x1D4CA, 0x1D4CB, 0x1D4CC, 0x1D4CD, 0x1D4CE, 0x1D4CF, 0x1D4D0, 0x1D4D1, 0x1D4D2,
    0x1D4D3, 0x1D4D4, 0x1D4D5, 0x1D4D6, 0x1D4D7, 0x1D4D8, 0x1D4D9, 0x1D4DA, 0x1D4DB, 0x1D4DC,
    0x1D4DD, 0x1D4DE, 0x1D4DF, 0x1D4E0, 0x1D4E1, 0x1D4E2, 0x1D4E3, 0x1D4E4, 0x1D4E5, 0x1D4E6,
    0x1D4E7, 0x1D4E8, 0x1D4E9, 0x1D4EA, 0x1D4EB, 0x1D4EC, 0x1D4ED, 0x1D4EE, 0x1D4EF, 0x1D4F0,
    0x1D4F1, 0x1D4F2, 0x1D4F3, 0x1D4F4, 0x1D4F5, 0x1D4F6, 0x1D4F7, 0x1D4F8, 0x1D4F9, 0x1D4FA,
    0x1D4FB, 0x1D4FC, 0x1D4FD, 0x1D4FE, 0x1D4FF, 0x1D500, 0x1D501, 0x1D502, 0x1D503, 0x1D504,
    0x1D505, 0x1D507, 0x1D508, 0x1D509, 0x1D50A, 0x1D50D, 0x1D50E, 0x1D50F, 0x1D510, 0x1D511,
    0x1D512, 0x1D513, 0x1D514, 0x1D516, 0x1D517, 0x1D518, 0x1D519, 0x1D51A, 0x1D51B, 0x1D51C,
    0x1D51E, 0x1D51F, 0x1D520, 0x1D521, 0x1D522, 0x1D523, 0x1D524, 0x1D525, 0x1D526, 0x1D527,
    0x1D528, 0x1D529, 0x1D52A, 0x1D52B, 0x1D52C, 0x1D52D, 0x1D52E, 0x1D52F, 0x1D530, 0x1D531,
    0x1D532, 0x1D533, 0x1D534, 0x1D535, 0x1D536, 0x1D537, 0x1D538, 0x1D539, 0x1D53B, 0x1D53C,
    0x1D53D, 0x1D53E, 0x1D540, 0x1D541, 0x1D542, 0x1D543, 0x1D544, 0x1D546, 0x1D54A, 0x1D54B,
    0x1D54C, 0x1D54D, 0x1D54E, 0x1D54F, 0x1D550, 0x1D552, 0x1D553, 0x1D554, 0x1D555, 0x1D556,
    0x1D557, 0x1D558, 0x1D559, 0x1D55A, 0x1D55B, 0x1D55C, 0x1D55D, 0x1D55E, 0x1D55F, 0x1D560,
    0x1D561, 0x1D562, 0x1D563, 0x1D564, 0x1D565, 0x1D566, 0x1D567, 0x1D568, 0x1D569, 0x1D56A,
    0x1D56B, 0x1D56C, 0x1D56D, 0x1D56E, 0x1D56F, 0x1D570, 0x1D571, 0x1D572, 0x1D573, 0x1D574,
    0x1D575, 0x1D576, 0x1D577, 0x1D578, 0x1D579, 0x1D57A, 0x1D57B, 0x1D57C, 0x1D57D, 0x1D57E,
    0x1D57F, 0x1D580, 0x1D581, 0x1D582, 0x1D583, 0x1D584, 0x1D585, 0x1D586, 0x1D587, 0x1D588,
    0x1D589, 0x1D58A, 0x1D58B, 0x1D58C, 0x1D58D, 0x1D58E, 0x1D58F, 0x1D590, 0x1D591, 0x1D592,
    0x1D593, 0x1D594, 0x1D595, 0x1D596, 0x1D597, 0x1D598, 0x1D599, 0x1D59A, 0x1D59B, 0x1D59C,
    0x1D59D, 0x1D59E, 0x1D59F, 0x1D5A0, 0x1D5A1, 0x1D5A2, 0x1D5A3, 0x1D5A4, 0x1D5A5, 0x1D5A6,
    0x1D5A7, 0x1D5A8, 0x1D5A9, 0x1D5AA, 0x1D5AB, 0x1D5AC, 0x1D5AD, 0x1D5AE, 0x1D5AF, 0x1D5B0,
    0x1D5B1, 0x1D5B2, 0x1D5B3, 0x1D5B4, 0x1D5B5, 0x1D5B6, 0x1D5B7, 0x1D5B8, 0x1D5B9, 0x1D5BA,
    0x1D5BB, 0x1D5BC, 0x1D5BD, 0x1D5BE, 0x1D5BF, 0x1D5C0, 0x1D5C1, 0x1D5C2, 0x1D5C3, 0x1D5C4,
    0x1D5C5, 0x1D5C6, 0x1D5C7, 0x1D5C8, 0x1D5C9, 0x1D5CA, 0x1D5CB, 0x1D5CC, 0x1D5CD, 0x1D5CE,
    0x1D5CF, 0x1D5D0, 0x1D5D1, 0x1D5D2, 0x1D5D3, 0x1D5D4, 0x1D5D5, 0x1D5D6, 0x1D5D7, 0x1D5D8,
    0x1D5D9, 0x1D5DA, 0x1D5DB, 0x1D5DC, 0x1D5DD, 0x1D5DE, 0x1D5DF, 0x1D5E0, 0x1D5E1, 0x1D5E2,
    0x1D5E3, 0x1D5E4, 0x1D5E5, 0x1D5E6, 0x1D5E7, 0x1D5E8, 0x1D5E9, 0x1D5EA, 0x1D5EB, 0x1D5EC,
    0x1D5ED, 0x1D5EE, 0x1D5EF, 0x1D5F0, 0x1D5F1, 0x1D5F2, 0x1D5F3, 0x1D5F4, 0x1D5F5, 0x1D5F6,
    0x1D5F7, 0x1D5F8, 0x1D5F9, 0x1D5FA, 0x1D5FB, 0x1D5FC, 0x1D5FD, 0x1D5FE, 0x1D5FF, 0x1D600,
    0x1D601, 0x1D602, 0x1D603, 0x1D604, 0x1D605, 0x1D606, 0x1D607, 0x1D608, 0x1D609, 0x1D60A,
    0x1D60B, 0x1D60C, 0x1D60D, 0x1D60E, 0x1D60F, 0x1D610, 0x1D611, 0x1D612, 0x1D613, 0x1D614,
    0x1D615, 0x1D616, 0x1D617, 0x1D618, 0x1D619, 0x1D61A, 0x1D61B, 0x1D61C, 0x1D61D, 0x1D61E,
    0x1D61F, 0x1D620, 0x1D621, 0x1D622, 0x1D623, 0x1D624, 0x1D625, 0x1D626, 0x1D627, 0x1D628,
    0x1D629, 0x1D62A, 0x1D62B, 0x1D62C, 0x1D62D, 0x1D62E, 0x1D62F, 0x1D630, 0x1D631, 0x1D632,
    0x1D633, 0x1D634, 0x1D635, 0x1D636, 0x1D637, 0x1D638, 0x1D639, 0x1D63A, 0x1D63B, 0x1D63C,
];

const COMPATIBILITY_KEYS_3: [u32; 734] = [
    0x1D63D, 0x1D63E, 0x1D63F, 0x1D640, 0x1D641, 0x1D642, 0x1D643, 0x1D644, 0x1D645, 0x1D646,
    0x1D647, 0x1D648, 0x1D649, 0x1D64A, 0x1D64B, 0x1D64C, 0x1D64D, 0x1D64E, 0x1D64F, 0x1D650,
    0x1D651, 0x1D652, 0x1D653, 0x1D654, 0x1D655, 0x1D656, 0x1D657, 0x1D658, 0x1D659, 0x1D65A,
    0x1D65B, 0x1D65C, 0x1D65D, 0x1D65E, 0x1D65F, 0x1D660, 0x1D661, 0x1D662, 0x1D663, 0x1D664,
    0x1D665, 0x1D666, 0x1D667, 0x1D668, 0x1D669, 0x1D66A, 0x1D66B, 0x1D66C, 0x1D66D, 0x1D66E,
    0x1D66F, 0x1D670, 0x1D671, 0x1D672, 0x1D673, 0x1D674, 0x1D675, 0x1D676, 0x1D677, 0x1D678,
    0x1D679, 0x1D67A, 0x1D67B, 0x1D67C, 0x1D67D, 0x1D67E, 0x1D67F, 0x1D680, 0x1D681, 0x1D682,
    0x1D683, 0x1D684, 0x1D685, 0x1D686, 0x1D687, 0x1D688, 0x1D689, 0x1D68A, 0x1D68B, 0x1D68C,
    0x1D68D, 0x1D68E, 0x1D68F, 0x1D690, 0x1D691, 0x1D692, 0x1D693, 0x1D694, 0x1D695, 0x1D696,
    0x1D697, 0x1D698, 0x1D699, 0x1D69A, 0x1D69B, 0x1D69C, 0x1D69D, 0x1D69E, 0x1D69F, 0x1D6A0,
    0x1D6A1, 0x1D6A2, 0x1D6A3, 0x1D6A4, 0x1D6A5, 0x1D6A8, 0x1D6A9, 0x1D6AA, 0x1D6AB, 0x1D6AC,
    0x1D6AD, 0x1D6AE, 0x1D6AF, 0x1D6B0, 0x1D6B1, 0x1D6B2, 0x1D6B3, 0x1D6B4, 0x1D6B5, 0x1D6B6,
    0x1D6B7, 0x1D6B8, 0x1D6B9, 0x1D6BA, 0x1D6BB, 0x1D6BC, 0x1D6BD, 0x1D6BE, 0x1D6BF, 0x1D6C0,
    0x1D6C1, 0x1D6C2, 0x1D6C3, 0x1D6C4, 0x1D6C5, 0x1D6C6, 0x1D6C7, 0x1D6C8, 0x1D6C9, 0x1D6CA,
    0x1D6CB, 0x1D6CC, 0x1D6CD, 0x1D6CE, 0x1D6CF, 0x1D6D0, 0x1D6D1, 0x1D6D2, 0x1D6D3, 0x1D6D4,
    0x1D6D5, 0x1D6D6, 0x1D6D7, 0x1D6D8, 0x1D6D9, 0x1D6DA, 0x1D6DB, 0x1D6DC, 0x1D6DD, 0x1D6DE,
    0x1D6DF, 0x1D6E0, 0x1D6E1, 0x1D6E2, 0x1D6E3, 0x1D6E4, 0x1D6E5, 0x1D6E6, 0x1D6E7, 0x1D6E8,
    0x1D6E9, 0x1D6EA, 0x1D6EB, 0x1D6EC, 0x1D6ED, 0x1D6EE, 0x1D6EF, 0x1D6F0, 0x1D6F1, 0x1D6F2,
    0x1D6F3, 0x1D6F4, 0x1D6F5, 0x1D6F6, 0x1D6F7, 0x1D6F8, 0x1D6F9, 0x1D6FA, 0x1D6FB, 0x1D6FC,
    0x1D6FD, 0x1D6FE, 0x1D6FF, 0x1D700, 0x1D701, 0x1D702, 0x1D703, 0x1D704, 0x1D705, 0x1D706,
    0x1D707, 0x1D708, 0x1D709, 0x1D70A, 0x1D70B, 0x1D70C, 0x1D70D, 0x1D70E, 0x1D70F, 0x1D710,
    0x1D711, 0x1D712, 0x1D713, 0x1D714, 0x1D715, 0x1D716, 0x1D717, 0x1D718, 0x1D719, 0x1D71A,
    0x1D71B, 0x1D71C, 0x1D71D, 0x1D71E, 0x1D71F, 0x1D720, 0x1D721, 0x1D722, 0x1D723, 0x1D724,
    0x1D725, 0x1D726, 0x1D727, 0x1D728, 0x1D729, 0x1D72A, 0x1D72B, 0x1D72C, 0x1D72D, 0x1D72E,
    0x1D72F, 0x1D730, 0x1D731, 0x1D732, 0x1D733, 0x1D734, 0x1D735, 0x1D736, 0x1D737, 0x1D738,
    0x1D739, 0x1D73A, 0x1D73B, 0x1D73C, 0x1D73D, 0x1D73E, 0x1D73F, 0x1D740, 0x1D741, 0x1D742,
    0x1D743, 0x1D744, 0x1D745, 0x1D746, 0x1D747, 0x1D748, 0x1D749, 0x1D74A, 0x1D74B, 0x1D74C,
    0x1D74D, 0x1D74E, 0x1D74F, 0x1D750, 0x1D751, 0x1D752, 0x1D753, 0x1D754, 0x1D755, 0x1D756,
    0x1D757, 0x1D758, 0x1D759, 0x1D75A, 0x1D75B, 0x1D75C, 0x1D75D, 0x1D75E, 0x1D75F, 0x1D760,
    0x1D761, 0x1D762, 0x1D763, 0x1D764, 0x1D765, 0x1D766, 0x1D767, 0x1D768, 0x1D769, 0x1D76A,
    0x1D76B, 0x1D76C, 0x1D76D, 0x1D76E, 0x1D76F, 0x1D770, 0x1D771, 0x1D772, 0x1D773, 0x1D774,
    0x1D775, 0x1D776, 0x1D777, 0x1D778, 0x1D779, 0x1D77A, 0x1D77B, 0x1D77C, 0x1D77D, 0x1D77E,
    0x1D77F, 0x1D780, 0x1D781, 0x1D782, 0x1D783, 0x1D784, 0x1D785, 0x1D786, 0x1D787, 0x1D788,
    0x1D789, 0x1D78A, 0x1D78B, 0x1D78C, 0x1D78D, 0x1D78E, 0x1D78F, 0x1D790, 0x1D791, 0x1D792,
    0x1D793, 0x1D794, 0x1D795, 0x1D796, 0x1D797, 0x1D798, 0x1D799, 0x1D79A, 0x1D79B, 0x1D79C,
    0x1D79D, 0x1D79E, 0x1D79F, 0x1D7A0, 0x1D7A1, 0x1D7A2, 0x1D7A3, 0x1D7A4, 0x1D7A5, 0x1D7A6,
    0x1D7A7, 0x1D7A8, 0x1D7A9, 0x1D7AA, 0x1D7AB, 0x1D7AC, 0x1D7AD, 0x1D7AE, 0x1D7AF, 0x1D7B0,
    0x1D7B1, 0x1D7B2, 0x1D7B3, 0x1D7B4, 0x1D7B5, 0x1D7B6, 0x1D7B7, 0x1D7B8, 0x1D7B9, 0x1D7BA,
    0x1D7BB, 0x1D7BC, 0x1D7BD, 0x1D7BE, 0x1D7BF, 0x1D7C0, 0x1D7C1, 0x1D7C2, 0x1D7C3, 0x1D7C4,
    0x1D7C5, 0x1D7C6, 0x1D7C7, 0x1D7C8, 0x1D7C9, 0x1D7CA, 0x1D7CB, 0x1D7CE, 0x1D7CF, 0x1D7D0,
    0x1D7D1, 0x1D7D2, 0x1D7D3, 0x1D7D4, 0x1D7D5, 0x1D7D6, 0x1D7D7, 0x1D7D8, 0x1D7D9, 0x1D7DA,
    0x1D7DB, 0x1D7DC, 0x1D7DD, 0x1D7DE, 0x1D7DF, 0x1D7E0, 0x1D7E1, 0x1D7E2, 0x1D7E3, 0x1D7E4,
    0x1D7E5, 0x1D7E6, 0x1D7E7, 0x1D7E8, 0x1D7E9, 0x1D7EA, 0x1D7EB, 0x1D7EC, 0x1D7ED, 0x1D7EE,
    0x1D7EF, 0x1D7F0, 0x1D7F1, 0x1D7F2, 0x1D7F3, 0x1D7F4, 0x1D7F5, 0x1D7F6, 0x1D7F7, 0x1D7F8,
    0x1D7F9, 0x1D7FA, 0x1D7FB, 0x1D7FC, 0x1D7FD, 0x1D7FE, 0x1D7FF, 0x1EE00, 0x1EE01, 0x1EE02,
    0x1EE03, 0x1EE05, 0x1EE06, 0x1EE07, 0x1EE08, 0x1EE09, 0x1EE0A, 0x1EE0B, 0x1EE0C, 0x1EE0D,
    0x1EE0E, 0x1EE0F, 0x1EE10, 0x1EE11, 0x1EE12, 0x1EE13, 0x1EE14, 0x1EE15, 0x1EE16, 0x1EE17,
    0x1EE18, 0x1EE19, 0x1EE1A, 0x1EE1B, 0x1EE1C, 0x1EE1D, 0x1EE1E, 0x1EE1F, 0x1EE21, 0x1EE22,
    0x1EE24, 0x1EE27, 0x1EE29, 0x1EE2A, 0x1EE2B, 0x1EE2C, 0x1EE2D, 0x1EE2E, 0x1EE2F, 0x1EE30,
    0x1EE31, 0x1EE32, 0x1EE34, 0x1EE35, 0x1EE36, 0x1EE37, 0x1EE39, 0x1EE3B, 0x1EE42, 0x1EE47,
    0x1EE49, 0x1EE4B, 0x1EE4D, 0x1EE4E, 0x1EE4F, 0x1EE51, 0x1EE52, 0x1EE54, 0x1EE57, 0x1EE59,
    0x1EE5B, 0x1EE5D, 0x1EE5F, 0x1EE61, 0x1EE62, 0x1EE64, 0x1EE67, 0x1EE68, 0x1EE69, 0x1EE6A,
    0x1EE6C, 0x1EE6D, 0x1EE6E, 0x1EE6F, 0x1EE70, 0x1EE71, 0x1EE72, 0x1EE74, 0x1EE75, 0x1EE76,
    0x1EE77, 0x1EE79, 0x1EE7A, 0x1EE7B, 0x1EE7C, 0x1EE7E, 0x1EE80, 0x1EE81, 0x1EE82, 0x1EE83,
    0x1EE84, 0x1EE85, 0x1EE86, 0x1EE87, 0x1EE88, 0x1EE89, 0x1EE8B, 0x1EE8C, 0x1EE8D, 0x1EE8E,
    0x1EE8F, 0x1EE90, 0x1EE91, 0x1EE92, 0x1EE93, 0x1EE94, 0x1EE95, 0x1EE96, 0x1EE97, 0x1EE98,
    0x1EE99, 0x1EE9A, 0x1EE9B, 0x1EEA1, 0x1EEA2, 0x1EEA3, 0x1EEA5, 0x1EEA6, 0x1EEA7, 0x1EEA8,
    0x1EEA9, 0x1EEAB, 0x1EEAC, 0x1EEAD, 0x1EEAE, 0x1EEAF, 0x1EEB0, 0x1EEB1, 0x1EEB2, 0x1EEB3,
    0x1EEB4, 0x1EEB5, 0x1EEB6, 0x1EEB7, 0x1EEB8, 0x1EEB9, 0x1EEBA, 0x1EEBB, 0x1F100, 0x1F101,
    0x1F102, 0x1F103, 0x1F104, 0x1F105, 0x1F106, 0x1F107, 0x1F108, 0x1F109, 0x1F10A, 0x1F110,
    0x1F111, 0x1F112, 0x1F113, 0x1F114, 0x1F115, 0x1F116, 0x1F117, 0x1F118, 0x1F119, 0x1F11A,
    0x1F11B, 0x1F11C, 0x1F11D, 0x1F11E, 0x1F11F, 0x1F120, 0x1F121, 0x1F122, 0x1F123, 0x1F124,
    0x1F125, 0x1F126, 0x1F127, 0x1F128, 0x1F129, 0x1F12A, 0x1F12B, 0x1F12C, 0x1F12D, 0x1F12E,
    0x1F130, 0x1F131, 0x1F132, 0x1F133, 0x1F134, 0x1F135, 0x1F136, 0x1F137, 0x1F138, 0x1F139,
    0x1F13A, 0x1F13B, 0x1F13C, 0x1F13D, 0x1F13E, 0x1F13F, 0x1F140, 0x1F141, 0x1F142, 0x1F143,
    0x1F144, 0x1F145, 0x1F146, 0x1F147, 0x1F148, 0x1F149, 0x1F14A, 0x1F14B, 0x1F14C, 0x1F14D,
    0x1F14E, 0x1F14F, 0x1F16A, 0x1F16B, 0x1F16C, 0x1F190, 0x1F200, 0x1F201, 0x1F202, 0x1F210,
    0x1F211, 0x1F212, 0x1F213, 0x1F214, 0x1F215, 0x1F216, 0x1F217, 0x1F218, 0x1F219, 0x1F21A,
    0x1F21B, 0x1F21C, 0x1F21D, 0x1F21E, 0x1F21F, 0x1F220, 0x1F221, 0x1F222, 0x1F223, 0x1F224,
    0x1F225, 0x1F226, 0x1F227, 0x1F228, 0x1F229, 0x1F22A, 0x1F22B, 0x1F22C, 0x1F22D, 0x1F22E,
    0x1F22F, 0x1F230, 0x1F231, 0x1F232, 0x1F233, 0x1F234, 0x1F235, 0x1F236, 0x1F237, 0x1F238,
    0x1F239, 0x1F23A, 0x1F23B, 0x1F240, 0x1F241, 0x1F242, 0x1F243, 0x1F244, 0x1F245, 0x1F246,
    0x1F247, 0x1F248, 0x1F250, 0x1F251, 0x1FBF0, 0x1FBF1, 0x1FBF2, 0x1FBF3, 0x1FBF4, 0x1FBF5,
    0x1FBF6, 0x1FBF7, 0x1FBF8, 0x1FBF9,
];

/// Code points with a compatibility decomposition.
pub closed spec fn compatibility_keys_data() -> Seq<u32> {
    Seq::empty() + COMPATIBILITY_KEYS_0@ + COMPATIBILITY_KEYS_1@ + COMPATIBILITY_KEYS_2@ + COMPATIBILITY_KEYS_3@
}

/// The entries of `compatibility_keys_data`, in one vector.
pub fn compatibility_keys() -> (r: Vec<u32>)
    ensures
        r@ == compatibility_keys_data(),
{
    let mut v: Vec<u32> = Vec::new();
    push_all(&mut v, &COMPATIBILITY_KEYS_0);
    push_all(&mut v, &COMPATIBILITY_KEYS_1);
    push_all(&mut v, &COMPATIBILITY_KEYS_2);
    push_all(&mut v, &COMPATIBILITY_KEYS_3);
    v
}

const COMPATIBILITY_SPANS_0: [(u32, u32); 1000] = [
    (0, 1), (1, 2), (3, 1), (4, 2), (6, 1), (7, 1), (8, 2), (10, 1),
    (11, 2), (13, 1), (14, 1), (15, 3), (18, 3), (21, 3), (24, 2), (26, 2),
    (28, 2), (30, 2), (32, 2), (34, 1), (35, 2), (37, 2), (39, 2), (41, 2),
    (43, 2), (45, 2), (47, 2), (49, 2), (51, 2), (53, 2), (55, 2), (57, 2),
    (59, 1), (60, 1), (61, 1), (62, 1), (63, 1), (64, 1), (65, 1), (66, 1),
    (67, 1), (68, 2), (70, 2), (72, 2), (74, 2), (76, 2), (78, 2), (80, 1),
    (81, 1), (82, 1), (83, 1), (84, 1), (85, 2), (87, 2), (89, 1), (90, 1),
    (91, 1), (92, 1), (93, 1), (94, 1), (95, 1), (96, 1), (97, 1), (98, 1),
    (99, 1), (100, 2), (102, 2), (104, 2), (106, 2), (108, 2), (110, 2), (112, 2),
    (114, 2), (116, 2), (118, 1), (119, 2), (121, 2), (123, 1), (124, 1), (125, 1),
    (126, 1), (127, 1), (128, 1), (129, 1), (130, 1), (131, 1), (132, 1), (133, 1),
    (134, 1), (135, 1), (136, 1), (137, 1), (138, 1), (139, 1), (140, 1), (141, 1),
    (142, 1), (143, 1), (144, 1), (145, 1), (146, 1), (147, 1), (148, 1), (149, 1),
    (150, 1), (151, 1), (152, 1), (153, 1), (154, 1), (155, 1), (156, 1), (157, 1),
    (158, 1), (159, 1), (160, 1), (161, 1), (162, 1), (163, 1), (164, 1), (165, 1),
    (166, 1), (167, 1), (168, 1), (169, 1), (170, 1), (171, 1), (172, 1), (173, 1),
    (174, 1), (175, 1), (176, 1), (177, 1), (178, 1), (179, 1), (180, 1), (181, 1),
    (182, 1), (183, 1), (184, 1), (185, 1), (186, 1), (187, 1), (188, 1), (189, 1),
    (190, 1), (191, 1), (192, 1), (193, 1), (194, 1), (195, 1), (196, 1), (197, 1),
    (198, 1), (199, 1), (200, 1), (201, 1), (202, 1), (203, 1), (204, 1), (205, 1),
    (206, 1), (207, 1), (208, 1), (209, 1), (210, 1), (211, 1), (212, 1), (213, 1),
    (214, 1), (215, 1), (216, 1), (217, 1), (218, 1), (219, 1), (220, 1), (221, 1),
    (222, 2), (224, 2), (226, 2), (228, 2), (230, 2), (232, 1), (233, 1), (234, 1),
    (235, 1), (236, 1), (237, 1), (238, 1), (239, 1), (240, 1), (241, 1), (242, 2),
    (244, 1), (245, 2), (247, 3), (250, 1), (251, 2), (253, 3), (256, 2), (258, 3),
    (261, 2), (263, 2), (265, 2), (267, 2), (269, 2), (271, 4), (275, 1), (276, 1),
    (277, 1), (278, 1), (279, 1), (280, 1), (281, 1), (282, 1), (283, 1), (284, 1),
    (285, 1), (286, 1), (287, 1), (288, 1), (289, 1), (290, 1), (291, 1), (292, 1),
    (293, 1), (294, 1), (295, 1), (296, 1), (297, 1), (298, 1), (299, 1), (300, 1),
    (301, 1), (302, 1), (303, 1), (304, 1), (305, 1), (306, 1), (307, 1), (308, 1),
    (309, 1), (310, 1), (311, 1), (312, 1), (313, 1), (314, 1), (315, 1), (316, 1),
    (317, 1), (318, 2), (320, 3), (323, 3), (326, 1), (327, 2), (329, 3), (332, 3),
    (335, 1), (336, 2), (338, 1), (339, 1), (340, 1), (341, 1), (342, 1), (343, 1),
    (344, 1), (345, 1), (346, 1), (347, 1), (348, 1), (349, 2), (351, 1), (352, 1),
    (353, 1), (354, 1), (355, 1), (356, 2), (358, 3), (361, 2), (363, 1), (364, 1),
    (365, 1), (366, 1), (367, 1), (368, 1), (369, 1), (370, 1), (371, 1), (372, 1),
    (373, 1), (374, 1), (375, 1), (376, 1), (377, 3), (380, 1), (381, 1), (382, 1),
    (383, 1), (384, 1), (385, 1), (386, 1), (387, 1), (388, 1), (389, 1), (390, 3),
    (393, 3), (396, 4), (400, 3), (403, 3), (406, 3), (409, 3), (412, 3), (415, 3),
    (418, 3), (421, 3), (424, 3), (427, 3), (430, 3), (433, 3), (436, 2), (438, 1),
    (439, 2), (441, 3), (444, 2), (446, 1), (447, 2), (449, 3), (452, 4), (456, 2),
    (458, 1), (459, 2), (461, 3), (464, 1), (465, 1), (466, 1), (467, 1), (468, 1),
    (469, 2), (471, 3), (474, 2), (476, 1), (477, 2), (479, 3), (482, 4), (486, 2),
    (488, 1), (489, 2), (491, 3), (494, 1), (495, 1), (496, 1), (497, 1), (498, 3),
    (501, 2), (503, 3), (506, 2), (508, 3), (511, 1), (512, 1), (513, 1), (514, 1),
    (515, 1), (516, 1), (517, 1), (518, 1), (519, 1), (520, 2), (522, 2), (524, 2),
    (526, 2), (528, 2), (530, 2), (532, 2), (534, 2), (536, 2), (538, 2), (540, 2),
    (542, 3), (545, 3), (548, 3), (551, 3), (554, 3), (557, 3), (560, 3), (563, 3),
    (566, 3), (569, 4), (573, 4), (577, 4), (581, 4), (585, 4), (589, 4), (593, 4),
    (597, 4), (601, 4), (605, 4), (609, 4), (613, 2), (615, 2), (617, 2), (619, 2),
    (621, 2), (623, 2), (625, 2), (627, 2), (629, 2), (631, 3), (634, 3), (637, 3),
    (640, 3), (643, 3), (646, 3), (649, 3), (652, 3), (655, 3), (658, 3), (661, 3),
    (664, 3), (667, 3), (670, 3), (673, 3), (676, 3), (679, 3), (682, 3), (685, 3),
    (688, 3), (691, 3), (694, 3), (697, 3), (700, 3), (703, 3), (706, 3), (709, 3),
    (712, 3), (715, 3), (718, 3), (721, 3), (724, 3), (727, 3), (730, 3), (733, 3),
    (736, 3), (739, 3), (742, 1), (743, 1), (744, 1), (745, 1), (746, 1), (747, 1),
    (748, 1), (749, 1), (750, 1), (751, 1), (752, 1), (753, 1), (754, 1), (755, 1),
    (756, 1), (757, 1), (758, 1), (759, 1), (760, 1), (761, 1), (762, 1), (763, 1),
    (764, 1), (765, 1), (766, 1), (767, 1), (768, 1), (769, 1), (770, 1), (771, 1),
    (772, 1), (773, 1), (774, 1), (775, 1), (776, 1), (777, 1), (778, 1), (779, 1),
    (780, 1), (781, 1), (782, 1), (783, 1), (784, 1), (785, 1), (786, 1), (787, 1),
    (788, 1), (789, 1), (790, 1), (791, 1), (792, 1), (793, 1), (794, 1), (795, 4),
    (799, 3), (802, 2), (804, 3), (807, 1), (808, 1), (809, 1), (810, 1), (811, 1),
    (812, 1), (813, 1), (814, 1), (815, 1), (816, 1), (817, 1), (818, 1), (819, 1),
    (820, 1), (821, 1), (822, 1), (823, 1), (824, 1), (825, 1), (826, 1), (827, 1),
    (828, 1), (829, 1), (830, 1), (831, 1), (832, 1), (833, 1), (834, 1), (835, 1),
    (836, 1), (837, 1), (838, 1), (839, 1), (840, 1), (841, 1), (842, 1), (843, 1),
    (844, 1), (845, 1), (846, 1), (847, 1), (848, 1), (849, 1), (850, 1), (851, 1),
    (852, 1), (853, 1), (854, 1), (855, 1), (856, 1), (857, 1), (858, 1), (859, 1),
    (860, 1), (861, 1), (862, 1), (863, 1), (864, 1), (865, 1), (866, 1), (867, 1),
    (868, 1), (869, 1), (870, 1), (871, 1), (872, 1), (873, 1), (874, 1), (875, 1),
    (876, 1), (877, 1), (878, 1), (879, 1), (880, 1), (881, 1), (882, 1), (883, 1),
    (884, 1), (885, 1), (886, 1), (887, 1), (888, 1), (889, 1), (890, 1), (891, 1),
    (892, 1), (893, 1), (894, 1), (895, 1), (896, 1), (897, 1), (898, 1), (899, 1),
    (900, 1), (901, 1), (902, 1), (903, 1), (904, 1), (905, 1), (906, 1), (907, 1),
    (908, 1), (909, 1), (910, 1), (911, 1), (912, 1), (913, 1), (914, 1), (915, 1),
    (916, 1), (917, 1), (918, 1), (919, 1), (920, 1), (921, 1), (922, 1), (923, 1),
    (924, 1), (925, 1), (926, 1), (927, 1), (928, 1), (929, 1), (930, 1), (931, 1),
    (932, 1), (933, 1), (934, 1), (935, 1), (936, 1), (937, 1), (938, 1), (939, 1),
    (940, 1), (941, 1), (942, 1), (943, 1), (944, 1), (945, 1), (946, 1), (947, 1),
    (948, 1), (949, 1), (950, 1), (951, 1), (952, 1), (953, 1), (954, 1), (955, 1),
    (956, 1), (957, 1), (958, 1), (959, 1), (960, 1), (961, 1), (962, 1), (963, 1),
    (964, 1), (965, 1), (966, 1), (967, 1), (968, 1), (969, 1), (970, 1), (971, 1),
    (972, 1), (973, 1), (974, 1), (975, 1), (976, 1), (977, 1), (978, 1), (979, 1),
    (980, 1), (981, 1), (982, 1), (983, 1), (984, 1), (985, 1), (986, 1), (987, 1),
    (988, 1), (989, 1), (990, 1), (991, 1), (992, 1), (993, 1), (994, 1), (995, 1),
    (996, 1), (997, 1), (998, 1), (999, 1), (1000, 1), (1001, 1), (1002, 1), (1003, 1),
    (1004, 1), (1005, 1), (1006, 1), (1007, 1), (1008, 1), (1009, 1), (1010, 1), (1011, 1),
    (1012, 1), (1013, 1), (1014, 1), (1015, 1), (1016, 1), (1017, 1), (1018, 1), (1019, 1),
    (1020, 1), (1021, 1), (1022, 1), (1023, 1), (1024, 1), (1025, 1), (1026, 1), (1027, 1),
    (1028, 1), (1029, 1), (1030, 1), (1031, 2), (1033, 2), (1035, 2), (1037, 2), (1039, 1),
    (1040, 1), (1041, 1), (1042, 1), (1043, 1), (1044, 1), (1045, 1), (1046, 1), (1047, 1),
    (1048, 1), (1049, 1), (1050, 1), (1051, 1), (1052, 1), (1053, 1), (1054, 1), (1055, 1),
    (1056, 1), (1057, 1), (1058, 1), (1059, 1), (1060, 1), (1061, 1), (1062, 1), (1063, 1),
    (1064, 1), (1065, 1), (1066, 1), (1067, 1), (1068, 1), (1069, 1), (1070, 1), (1071, 1),
    (1072, 1), (1073, 1), (1074, 1), (1075, 1), (1076, 1), (1077, 1), (1078, 1), (1079, 1),
    (1080, 1), (1081, 1), (1082, 1), (1083, 1), (1084, 1), (1085, 1), (1086, 1), (1087, 1),
    (1088, 1), (1089, 1), (1090, 1), (1091, 1), (1092, 1), (1093, 1), (1094, 1), (1095, 1),
    (1096, 1), (1097, 1), (1098, 1), (1099, 1), (1100, 1), (1101, 1), (1102, 1), (1103, 1),
    (1104, 1), (1105, 1), (1106, 1), (1107, 1), (1108, 1), (1109, 1), (1110, 1), (1111, 1),
    (1112, 1), (1113, 1), (1114, 1), (1115, 1), (1116, 1), (1117, 1), (1118, 1), (1119, 1),
    (1120, 1), (1121, 1), (1122, 1), (1123, 1), (1124, 1), (1125, 1), (1126, 1), (1127, 1),
    (1128, 1), (1129, 1), (1130, 1), (1131, 1), (1132, 1), (1133, 1), (1134, 1), (1135, 1),
    (1136, 1), (1137, 1), (1138, 1), (1139, 1), (1140, 1), (1141, 1), (1142, 1), (1143, 1),
    (1144, 1), (1145, 1), (1146, 1), (1147, 3), (1150, 3), (1153, 3), (1156, 3), (1159, 3),
    (1162, 3), (1165, 3), (1168, 3), (1171, 3), (1174, 3), (1177, 3), (1180, 3), (1183, 3),
    (1186, 3), (1189, 4), (1193, 4), (1197, 4), (1201, 4), (1205, 4), (1209, 4), (1213, 4),
    (1217, 4), (1221, 4), (1225, 4), (1229, 4), (1233, 4), (1237, 4), (1241, 4), (1245, 4),
    (1249, 7), (1256, 6), (1262, 3), (1265, 3), (1268, 3), (1271, 3), (1274, 3), (1277, 3),
    (1280, 3), (1283, 3), (1286, 3), (1289, 3), (1292, 3), (1295, 3), (1298, 3), (1301, 3),
    (1304, 3), (1307, 3), (1310, 3), (1313, 3), (1316, 3), (1319, 3), (1322, 3), (1325, 3),
    (1328, 3), (1331, 3), (1334, 3), (1337, 3), (1340, 3), (1343, 3), (1346, 3), (1349, 3),
    (1352, 3), (1355, 3), (1358, 3), (1361, 3), (1364, 3), (1367, 3), (1370, 1), (1371, 1),
    (1372, 1), (1373, 1), (1374, 3), (1377, 2), (1379, 2), (1381, 2), (1383, 2), (1385, 2),
    (1387, 2), (1389, 2), (1391, 2), (1393, 2), (1395, 2), (1397, 2), (1399, 2), (1401, 2),
    (1403, 2), (1405, 2), (1407, 1), (1408, 1), (1409, 1), (1410, 1), (1411, 1), (1412, 1),
    (1413, 1), (1414, 1), (1415, 1), (1416, 1), (1417, 1), (1418, 1), (1419, 1), (1420, 1),
    (1421, 2), (1423, 2), (1425, 2), (1427, 2), (1429, 2), (1431, 2), (1433, 2), (1435, 2),
    (1437, 2), (1439, 2), (1441, 2), (1443, 2), (1445, 2), (1447, 2), (1449, 5), (1454, 4),
    (1458, 2), (1460, 1), (1461, 1), (1462, 1), (1463, 1), (1464, 1), (1465, 1), (1466, 1),
    (1467, 1), (1468, 1), (1469, 1), (1470, 1), (1471, 1), (1472, 1), (1473, 1), (1474, 1),
    (1475, 1), (1476, 1), (1477, 1), (1478, 1), (1479, 1), (1480, 1), (1481, 1), (1482, 1),
    (1483, 1), (1484, 1), (1485, 1), (1486, 1), (1487, 1), (1488, 1), (1489, 1), (1490, 1),
    (1491, 1), (1492, 1), (1493, 1), (1494, 1), (1495, 1), (1496, 1), (1497, 1), (1498, 1),
    (1499, 1), (1500, 1), (1501, 1), (1502, 1), (1503, 1), (1504, 1), (1505, 1), (1506, 1),
];

const COMPATIBILITY_SPANS_1: [(u32, u32); 1000] = [
    (1507, 1), (1508, 1), (1509, 2), (1511, 2), (1513, 2), (1515, 2), (1517, 2), (1519, 2),
    (1521, 2), (1523, 2), (1525, 2), (1527, 2), (1529, 2), (1531, 2), (1533, 2), (1535, 2),
    (1537, 2), (1539, 2), (1541, 2), (1543, 2), (1545, 2), (1547, 2), (1549, 2), (1551, 2),
    (1553, 2), (1555, 2), (1557, 3), (1560, 3), (1563, 3), (1566, 2), (1568, 3), (1571, 2),
    (1573, 3), (1576, 1), (1577, 1), (1578, 1), (1579, 1), (1580, 1), (1581, 1), (1582, 1),
    (1583, 1), (1584, 1), (1585, 1), (1586, 1), (1587, 1), (1588, 1), (1589, 1), (1590, 1),
    (1591, 1), (1592, 1), (1593, 1), (1594, 1), (1595, 1), (1596, 1), (1597, 1), (1598, 1),
    (1599, 1), (1600, 1), (1601, 1), (1602, 1), (1603, 1), (1604, 1), (1605, 1), (1606, 1),
    (1607, 1), (1608, 1), (1609, 1), (1610, 1), (1611, 1), (1612, 1), (1613, 1), (1614, 1),
    (1615, 1), (1616, 1), (1617, 1), (1618, 1), (1619, 1), (1620, 1), (1621, 1), (1622, 1),
    (1623, 2), (1625, 4), (1629, 4), (1633, 4), (1637, 3), (1640, 4), (1644, 3), (1647, 3),
    (1650, 5), (1655, 4), (1659, 3), (1662, 3), (1665, 3), (1668, 4), (1672, 4), (1676, 3),
    (1679, 3), (1682, 2), (1684, 3), (1687, 4), (1691, 4), (1695, 2), (1697, 5), (1702, 6),
    (1708, 5), (1713, 3), (1716, 5), (1721, 5), (1726, 4), (1730, 3), (1733, 3), (1736, 3),
    (1739, 4), (1743, 5), (1748, 4), (1752, 3), (1755, 3), (1758, 3), (1761, 2), (1763, 2),
    (1765, 2), (1767, 2), (1769, 3), (1772, 3), (1775, 5), (1780, 3), (1783, 4), (1787, 5),
    (1792, 3), (1795, 2), (1797, 2), (1799, 5), (1804, 4), (1808, 5), (1813, 3), (1816, 5),
    (1821, 2), (1823, 3), (1826, 3), (1829, 3), (1832, 3), (1835, 3), (1838, 4), (1842, 3),
    (1845, 2), (1847, 3), (1850, 3), (1853, 3), (1856, 4), (1860, 3), (1863, 3), (1866, 3),
    (1869, 5), (1874, 4), (1878, 2), (1880, 5), (1885, 2), (1887, 4), (1891, 4), (1895, 3),
    (1898, 3), (1901, 3), (1904, 4), (1908, 2), (1910, 3), (1913, 4), (1917, 2), (1919, 5),
    (1924, 3), (1927, 2), (1929, 2), (1931, 2), (1933, 2), (1935, 2), (1937, 2), (1939, 2),
    (1941, 2), (1943, 2), (1945, 2), (1947, 3), (1950, 3), (1953, 3), (1956, 3), (1959, 3),
    (1962, 3), (1965, 3), (1968, 3), (1971, 3), (1974, 3), (1977, 3), (1980, 3), (1983, 3),
    (1986, 3), (1989, 3), (1992, 3), (1995, 2), (1997, 2), (1999, 3), (2002, 2), (2004, 2),
    (2006, 2), (2008, 3), (2011, 3), (2014, 2), (2016, 2), (2018, 2), (2020, 2), (2022, 2),
    (2024, 4), (2028, 2), (2030, 2), (2032, 2), (2034, 2), (2036, 2), (2038, 2), (2040, 2),
    (2042, 2), (2044, 3), (2047, 4), (2051, 2), (2053, 2), (2055, 2), (2057, 2), (2059, 2),
    (2061, 2), (2063, 2), (2065, 3), (2068, 3), (2071, 3), (2074, 3), (2077, 2), (2079, 2),
    (2081, 2), (2083, 2), (2085, 2), (2087, 2), (2089, 2), (2091, 2), (2093, 2), (2095, 2),
    (2097, 3), (2100, 3), (2103, 2), (2105, 3), (2108, 3), (2111, 3), (2114, 2), (2116, 3),
    (2119, 3), (2122, 4), (2126, 2), (2128, 3), (2131, 3), (2134, 3), (2137, 3), (2140, 5),
    (2145, 6), (2151, 2), (2153, 2), (2155, 2), (2157, 2), (2159, 2), (2161, 2), (2163, 2),
    (2165, 2), (2167, 2), (2169, 2), (2171, 2), (2173, 2), (2175, 2), (2177, 2), (2179, 2),
    (2181, 2), (2183, 2), (2185, 2), (2187, 4), (2191, 2), (2193, 2), (2195, 2), (2197, 4),
    (2201, 3), (2204, 2), (2206, 2), (2208, 2), (2210, 2), (2212, 2), (2214, 2), (2216, 2),
    (2218, 2), (2220, 2), (2222, 2), (2224, 3), (2227, 2), (2229, 2), (2231, 3), (2234, 3),
    (2237, 2), (2239, 4), (2243, 3), (2246, 2), (2248, 2), (2250, 2), (2252, 2), (2254, 3),
    (2257, 3), (2260, 2), (2262, 2), (2264, 2), (2266, 2), (2268, 2), (2270, 2), (2272, 2),
    (2274, 2), (2276, 2), (2278, 3), (2281, 3), (2284, 3), (2287, 3), (2290, 3), (2293, 3),
    (2296, 3), (2299, 3), (2302, 3), (2305, 3), (2308, 3), (2311, 3), (2314, 3), (2317, 3),
    (2320, 3), (2323, 3), (2326, 3), (2329, 3), (2332, 3), (2335, 3), (2338, 3), (2341, 3),
    (2344, 3), (2347, 1), (2348, 1), (2349, 1), (2350, 1), (2351, 1), (2352, 1), (2353, 1),
    (2354, 1), (2355, 1), (2356, 1), (2357, 1), (2358, 1), (2359, 1), (2360, 2), (2362, 2),
    (2364, 2), (2366, 3), (2369, 3), (2372, 2), (2374, 2), (2376, 2), (2378, 2), (2380, 2),
    (2382, 2), (2384, 2), (2386, 1), (2387, 1), (2388, 1), (2389, 1), (2390, 1), (2391, 1),
    (2392, 1), (2393, 1), (2394, 1), (2395, 1), (2396, 2), (2398, 1), (2399, 1), (2400, 1),
    (2401, 1), (2402, 1), (2403, 1), (2404, 1), (2405, 1), (2406, 1), (2407, 1), (2408, 1),
    (2409, 1), (2410, 1), (2411, 1), (2412, 1), (2413, 1), (2414, 1), (2415, 1), (2416, 1),
    (2417, 1), (2418, 1), (2419, 1), (2420, 1), (2421, 1), (2422, 1), (2423, 1), (2424, 1),
    (2425, 1), (2426, 1), (2427, 1), (2428, 1), (2429, 1), (2430, 1), (2431, 1), (2432, 1),
    (2433, 1), (2434, 1), (2435, 1), (2436, 1), (2437, 1), (2438, 1), (2439, 1), (2440, 1),
    (2441, 1), (2442, 1), (2443, 1), (2444, 1), (2445, 1), (2446, 1), (2447, 1), (2448, 1),
    (2449, 1), (2450, 1), (2451, 1), (2452, 1), (2453, 1), (2454, 1), (2455, 1), (2456, 1),
    (2457, 1), (2458, 1), (2459, 1), (2460, 1), (2461, 1), (2462, 1), (2463, 1), (2464, 1),
    (2465, 1), (2466, 1), (2467, 1), (2468, 1), (2469, 1), (2470, 1), (2471, 1), (2472, 1),
    (2473, 1), (2474, 1), (2475, 1), (2476, 1), (2477, 1), (2478, 1), (2479, 1), (2480, 1),
    (2481, 1), (2482, 1), (2483, 1), (2484, 1), (2485, 1), (2486, 1), (2487, 1), (2488, 1),
    (2489, 1), (2490, 1), (2491, 1), (2492, 1), (2493, 1), (2494, 1), (2495, 1), (2496, 1),
    (2497, 1), (2498, 1), (2499, 1), (2500, 1), (2501, 1), (2502, 1), (2503, 1), (2504, 1),
    (2505, 1), (2506, 1), (2507, 1), (2508, 1), (2509, 1), (2510, 1), (2511, 1), (2512, 1),
    (2513, 1), (2514, 1), (2515, 1), (2516, 1), (2517, 1), (2518, 1), (2519, 2), (2521, 2),
    (2523, 2), (2525, 2), (2527, 2), (2529, 2), (2531, 2), (2533, 2), (2535, 2), (2537, 2),
    (2539, 2), (2541, 2), (2543, 2), (2545, 2), (2547, 2), (2549, 2), (2551, 2), (2553, 2),
    (2555, 1), (2556, 1), (2557, 1), (2558, 1), (2559, 2), (2561, 2), (2563, 2), (2565, 2),
    (2567, 2), (2569, 2), (2571, 2), (2573, 2), (2575, 2), (2577, 2), (2579, 2), (2581, 2),
    (2583, 2), (2585, 2), (2587, 2), (2589, 2), (2591, 2), (2593, 2), (2595, 2), (2597, 2),
    (2599, 2), (2601, 2), (2603, 2), (2605, 2), (2607, 2), (2609, 2), (2611, 2), (2613, 2),
    (2615, 2), (2617, 2), (2619, 2), (2621, 2), (2623, 2), (2625, 2), (2627, 2), (2629, 2),
    (2631, 2), (2633, 2), (2635, 2), (2637, 2), (2639, 2), (2641, 2), (2643, 2), (2645, 2),
    (2647, 2), (2649, 2), (2651, 2), (2653, 2), (2655, 2), (2657, 2), (2659, 2), (2661, 2),
    (2663, 2), (2665, 2), (2667, 2), (2669, 2), (2671, 2), (2673, 2), (2675, 2), (2677, 2),
    (2679, 2), (2681, 2), (2683, 2), (2685, 2), (2687, 2), (2689, 2), (2691, 2), (2693, 2),
    (2695, 2), (2697, 2), (2699, 2), (2701, 2), (2703, 2), (2705, 2), (2707, 2), (2709, 2),
    (2711, 2), (2713, 2), (2715, 2), (2717, 2), (2719, 2), (2721, 2), (2723, 2), (2725, 2),
    (2727, 2), (2729, 2), (2731, 2), (2733, 2), (2735, 2), (2737, 2), (2739, 2), (2741, 2),
    (2743, 2), (2745, 2), (2747, 3), (2750, 3), (2753, 3), (2756, 3), (2759, 3), (2762, 3),
    (2765, 2), (2767, 2), (2769, 2), (2771, 2), (2773, 2), (2775, 2), (2777, 2), (2779, 2),
    (2781, 2), (2783, 2), (2785, 2), (2787, 2), (2789, 2), (2791, 2), (2793, 2), (2795, 2),
    (2797, 2), (2799, 2), (2801, 2), (2803, 2), (2805, 2), (2807, 2), (2809, 2), (2811, 2),
    (2813, 2), (2815, 2), (2817, 2), (2819, 2), (2821, 2), (2823, 2), (2825, 2), (2827, 2),
    (2829, 2), (2831, 2), (2833, 2), (2835, 2), (2837, 2), (2839, 2), (2841, 2), (2843, 2),
    (2845, 2), (2847, 2), (2849, 2), (2851, 2), (2853, 2), (2855, 2), (2857, 2), (2859, 2),
    (2861, 2), (2863, 2), (2865, 2), (2867, 2), (2869, 2), (2871, 2), (2873, 2), (2875, 2),
    (2877, 2), (2879, 2), (2881, 2), (2883, 2), (2885, 2), (2887, 2), (2889, 2), (2891, 2),
    (2893, 2), (2895, 2), (2897, 2), (2899, 2), (2901, 2), (2903, 2), (2905, 2), (2907, 2),
    (2909, 2), (2911, 2), (2913, 2), (2915, 2), (2917, 2), (2919, 2), (2921, 2), (2923, 2),
    (2925, 2), (2927, 2), (2929, 2), (2931, 2), (2933, 2), (2935, 2), (2937, 2), (2939, 2),
    (2941, 2), (2943, 2), (2945, 2), (2947, 2), (2949, 2), (2951, 2), (2953, 2), (2955, 2),
    (2957, 2), (2959, 2), (2961, 2), (2963, 2), (2965, 2), (2967, 2), (2969, 2), (2971, 2),
    (2973, 2), (2975, 2), (2977, 2), (2979, 2), (2981, 2), (2983, 2), (2985, 2), (2987, 2),
    (2989, 2), (2991, 2), (2993, 2), (2995, 2), (2997, 2), (2999, 2), (3001, 2), (3003, 2),
    (3005, 2), (3007, 2), (3009, 2), (3011, 2), (3013, 2), (3015, 2), (3017, 2), (3019, 2),
    (3021, 2), (3023, 2), (3025, 2), (3027, 2), (3029, 2), (3031, 2), (3033, 2), (3035, 2),
    (3037, 2), (3039, 2), (3041, 2), (3043, 2), (3045, 2), (3047, 2), (3049, 3), (3052, 3),
    (3055, 3), (3058, 2), (3060, 2), (3062, 2), (3064, 2), (3066, 2), (3068, 2), (3070, 2),
    (3072, 2), (3074, 2), (3076, 2), (3078, 2), (3080, 2), (3082, 2), (3084, 2), (3086, 2),
    (3088, 2), (3090, 2), (3092, 2), (3094, 2), (3096, 2), (3098, 2), (3100, 2), (3102, 2),
    (3104, 2), (3106, 2), (3108, 2), (3110, 2), (3112, 2), (3114, 2), (3116, 2), (3118, 2),
    (3120, 2), (3122, 2), (3124, 2), (3126, 2), (3128, 2), (3130, 2), (3132, 2), (3134, 2),
    (3136, 2), (3138, 2), (3140, 2), (3142, 2), (3144, 2), (3146, 2), (3148, 2), (3150, 2),
    (3152, 2), (3154, 2), (3156, 2), (3158, 2), (3160, 2), (3162, 2), (3164, 2), (3166, 2),
    (3168, 2), (3170, 2), (3172, 2), (3174, 2), (3176, 2), (3178, 2), (3180, 2), (3182, 2),
    (3184, 2), (3186, 2), (3188, 2), (3190, 2), (3192, 2), (3194, 2), (3196, 2), (3198, 2),
    (3200, 2), (3202, 2), (3204, 3), (3207, 3), (3210, 3), (3213, 3), (3216, 3), (3219, 3),
    (3222, 3), (3225, 3), (3228, 3), (3231, 3), (3234, 3), (3237, 3), (3240, 3), (3243, 3),
    (3246, 3), (3249, 3), (3252, 3), (3255, 3), (3258, 3), (3261, 3), (3264, 3), (3267, 3),
    (3270, 3), (3273, 3), (3276, 3), (3279, 3), (3282, 3), (3285, 3), (3288, 3), (3291, 3),
    (3294, 3), (3297, 3), (3300, 3), (3303, 3), (3306, 3), (3309, 3), (3312, 3), (3315, 3),
    (3318, 3), (3321, 3), (3324, 3), (3327, 3), (3330, 3), (3333, 3), (3336, 3), (3339, 3),
    (3342, 3), (3345, 3), (3348, 3), (3351, 3), (3354, 3), (3357, 3), (3360, 3), (3363, 3),
    (3366, 3), (3369, 3), (3372, 3), (3375, 3), (3378, 3), (3381, 3), (3384, 3), (3387, 3),
    (3390, 3), (3393, 3), (3396, 3), (3399, 3), (3402, 3), (3405, 3), (3408, 3), (3411, 3),
    (3414, 3), (3417, 3), (3420, 3), (3423, 3), (3426, 3), (3429, 3), (3432, 3), (3435, 3),
    (3438, 3), (3441, 3), (3444, 3), (3447, 3), (3450, 3), (3453, 3), (3456, 3), (3459, 3),
    (3462, 3), (3465, 3), (3468, 3), (3471, 3), (3474, 3), (3477, 3), (3480, 3), (3483, 3),
    (3486, 3), (3489, 3), (3492, 3), (3495, 3), (3498, 3), (3501, 3), (3504, 3), (3507, 3),
    (3510, 3), (3513, 3), (3516, 3), (3519, 3), (3522, 3), (3525, 3), (3528, 3), (3531, 3),
    (3534, 3), (3537, 3), (3540, 3), (3543, 3), (3546, 3), (3549, 3), (3552, 3), (3555, 3),
    (3558, 3), (3561, 3), (3564, 4), (3568, 4), (3572, 4), (3576, 4), (3580, 4), (3584, 4),
    (3588, 4), (3592, 3), (3595, 18), (3613, 8), (3621, 4), (3625, 1), (3626, 1), (3627, 1),
    (3628, 1), (3629, 1), (3630, 1), (3631, 1), (3632, 1), (3633, 1), (3634, 1), (3635, 1),
    (3636, 1), (3637, 1), (3638, 1), (3639, 1), (3640, 1), (3641, 1), (3642, 1), (3643, 1),
    (3644, 1), (3645, 1), (3646, 1), (3647, 1), (3648, 1), (3649, 1), (3650, 1), (3651, 1),
    (3652, 1), (3653, 1), (3654, 1), (3655, 1), (3656, 1), (3657, 1), (3658, 1), (3659, 1),
];

const COMPATIBILITY_SPANS_2: [(u32, u32); 1000] = [
    (3660, 1), (3661, 1), (3662, 1), (3663, 1), (3664, 1), (3665, 1), (3666, 1), (3667, 1),
    (3668, 1), (3669, 1), (3670, 1), (3671, 1), (3672, 1), (3673, 1), (3674, 1), (3675, 1),
    (3676, 1), (3677, 1), (3678, 1), (3679, 1), (3680, 1), (3681, 1), (3682, 1), (3683, 1),
    (3684, 1), (3685, 1), (3686, 1), (3687, 1), (3688, 1), (3689, 1), (3690, 1), (3691, 2),
    (3693, 2), (3695, 2), (3697, 2), (3699, 2), (3701, 2), (3703, 2), (3705, 2), (3707, 2),
    (3709, 2), (3711, 2), (3713, 2), (3715, 2), (3717, 2), (3719, 1), (3720, 1), (3721, 1),
    (3722, 1), (3723, 1), (3724, 1), (3725, 1), (3726, 1), (3727, 1), (3728, 1), (3729, 1),
    (3730, 1), (3731, 1), (3732, 1), (3733, 1), (3734, 1), (3735, 1), (3736, 1), (3737, 1),
    (3738, 1), (3739, 1), (3740, 1), (3741, 1), (3742, 1), (3743, 1), (3744, 1), (3745, 1),
    (3746, 1), (3747, 1), (3748, 1), (3749, 1), (3750, 1), (3751, 1), (3752, 1), (3753, 1),
    (3754, 1), (3755, 1), (3756, 1), (3757, 1), (3758, 1), (3759, 1), (3760, 1), (3761, 1),
    (3762, 1), (3763, 1), (3764, 1), (3765, 1), (3766, 1), (3767, 1), (3768, 1), (3769, 1),
    (3770, 1), (3771, 1), (3772, 1), (3773, 1), (3774, 1), (3775, 1), (3776, 1), (3777, 1),
    (3778, 1), (3779, 1), (3780, 1), (3781, 1), (3782, 1), (3783, 1), (3784, 1), (3785, 1),
    (3786, 1), (3787, 1), (3788, 1), (3789, 1), (3790, 1), (3791, 1), (3792, 1), (3793, 1),
    (3794, 1), (3795, 1), (3796, 1), (3797, 1), (3798, 1), (3799, 1), (3800, 1), (3801, 1),
    (3802, 1), (3803, 1), (3804, 1), (3805, 1), (3806, 1), (3807, 1), (3808, 1), (3809, 1),
    (3810, 1), (3811, 1), (3812, 1), (3813, 1), (3814, 1), (3815, 1), (3816, 1), (3817, 1),
    (3818, 1), (3819, 1), (3820, 1), (3821, 1), (3822, 1), (3823, 1), (3824, 1), (3825, 1),
    (3826, 1), (3827, 1), (3828, 1), (3829, 1), (3830, 1), (3831, 1), (3832, 1), (3833, 1),
    (3834, 1), (3835, 1), (3836, 2), (3838, 2), (3840, 2), (3842, 2), (3844, 2), (3846, 2),
    (3848, 2), (3850, 2), (3852, 1), (3853, 1), (3854, 1), (3855, 1), (3856, 1), (3857, 1),
    (3858, 1), (3859, 1), (3860, 1), (3861, 1), (3862, 1), (3863, 1), (3864, 1), (3865, 1),
    (3866, 1), (3867, 1), (3868, 1), (3869, 1), (3870, 1), (3871, 1), (3872, 1), (3873, 1),
    (3874, 1), (3875, 1), (3876, 1), (3877, 1), (3878, 1), (3879, 1), (3880, 1), (3881, 1),
    (3882, 1), (3883, 1), (3884, 1), (3885, 1), (3886, 1), (3887, 1), (3888, 1), (3889, 1),
    (3890, 1), (3891, 1), (3892, 1), (3893, 1), (3894, 1), (3895, 1), (3896, 1), (3897, 1),
    (3898, 1), (3899, 1), (3900, 1), (3901, 1), (3902, 1), (3903, 1), (3904, 1), (3905, 1),
    (3906, 1), (3907, 1), (3908, 1), (3909, 1), (3910, 1), (3911, 1), (3912, 1), (3913, 1),
    (3914, 1), (3915, 1), (3916, 1), (3917, 1), (3918, 1), (3919, 1), (3920, 1), (3921, 1),
    (3922, 1), (3923, 1), (3924, 1), (3925, 1), (3926, 1), (3927, 1), (3928, 1), (3929, 1),
    (3930, 1), (3931, 1), (3932, 1), (3933, 1), (3934, 1), (3935, 1), (3936, 1), (3937, 1),
    (3938, 1), (3939, 1), (3940, 1), (3941, 1), (3942, 1), (3943, 1), (3944, 1), (3945, 1),
    (3946, 1), (3947, 1), (3948, 1), (3949, 1), (3950, 1), (3951, 1), (3952, 1), (3953, 1),
    (3954, 1), (3955, 1), (3956, 1), (3957, 1), (3958, 1), (3959, 1), (3960, 1), (3961, 1),
    (3962, 1), (3963, 1), (3964, 1), (3965, 1), (3966, 1), (3967, 1), (3968, 1), (3969, 1),
    (3970, 1), (3971, 1), (3972, 1), (3973, 1), (3974, 1), (3975, 1), (3976, 1), (3977, 1),
    (3978, 1), (3979, 1), (3980, 1), (3981, 1), (3982, 1), (3983, 1), (3984, 1), (3985, 1),
    (3986, 1), (3987, 1), (3988, 1), (3989, 1), (3990, 1), (3991, 1), (3992, 1), (3993, 1),
    (3994, 1), (3995, 1), (3996, 1), (3997, 1), (3998, 1), (3999, 1), (4000, 1), (4001, 1),
    (4002, 1), (4003, 1), (4004, 1), (4005, 1), (4006, 1), (4007, 1), (4008, 1), (4009, 1),
    (4010, 1), (4011, 1), (4012, 1), (4013, 1), (4014, 1), (4015, 1), (4016, 1), (4017, 1),
    (4018, 1), (4019, 1), (4020, 1), (4021, 1), (4022, 1), (4023, 1), (4024, 1), (4025, 1),
    (4026, 1), (4027, 1), (4028, 1), (4029, 1), (4030, 1), (4031, 1), (4032, 1), (4033, 1),
    (4034, 1), (4035, 1), (4036, 1), (4037, 1), (4038, 1), (4039, 1), (4040, 1), (4041, 1),
    (4042, 1), (4043, 1), (4044, 1), (4045, 1), (4046, 1), (4047, 1), (4048, 1), (4049, 1),
    (4050, 1), (4051, 1), (4052, 1), (4053, 1), (4054, 1), (4055, 1), (4056, 1), (4057, 1),
    (4058, 1), (4059, 1), (4060, 1), (4061, 1), (4062, 1), (4063, 1), (4064, 1), (4065, 1),
    (4066, 1), (4067, 1), (4068, 1), (4069, 1), (4070, 1), (4071, 1), (4072, 1), (4073, 1),
    (4074, 1), (4075, 1), (4076, 1), (4077, 1), (4078, 1), (4079, 1), (4080, 1), (4081, 1),
    (4082, 1), (4083, 1), (4084, 1), (4085, 1), (4086, 1), (4087, 1), (4088, 1), (4089, 1),
    (4090, 1), (4091, 1), (4092, 1), (4093, 1), (4094, 1), (4095, 1), (4096, 1), (4097, 1),
    (4098, 1), (4099, 1), (4100, 1), (4101, 1), (4102, 1), (4103, 1), (4104, 1), (4105, 1),
    (4106, 1), (4107, 1), (4108, 1), (4109, 1), (4110, 1), (4111, 1), (4112, 1), (4113, 1),
    (4114, 1), (4115, 1), (4116, 1), (4117, 1), (4118, 1), (4119, 1), (4120, 1), (4121, 1),
    (4122, 1), (4123, 1), (4124, 1), (4125, 1), (4126, 1), (4127, 1), (4128, 1), (4129, 1),
    (4130, 1), (4131, 1), (4132, 1), (4133, 1), (4134, 1), (4135, 1), (4136, 1), (4137, 1),
    (4138, 1), (4139, 1), (4140, 1), (4141, 1), (4142, 1), (4143, 1), (4144, 1), (4145, 1),
    (4146, 1), (4147, 1), (4148, 1), (4149, 1), (4150, 1), (4151, 1), (4152, 1), (4153, 1),
    (4154, 1), (4155, 1), (4156, 1), (4157, 1), (4158, 1), (4159, 1), (4160, 1), (4161, 1),
    (4162, 1), (4163, 1), (4164, 1), (4165, 1), (4166, 1), (4167, 1), (4168, 1), (4169, 1),
    (4170, 1), (4171, 1), (4172, 1), (4173, 1), (4174, 1), (4175, 1), (4176, 1), (4177, 1),
    (4178, 1), (4179, 1), (4180, 1), (4181, 1), (4182, 1), (4183, 1), (4184, 1), (4185, 1),
    (4186, 1), (4187, 1), (4188, 1), (4189, 1), (4190, 1), (4191, 1), (4192, 1), (4193, 1),
    (4194, 1), (4195, 1), (4196, 1), (4197, 1), (4198, 1), (4199, 1), (4200, 1), (4201, 1),
    (4202, 1), (4203, 1), (4204, 1), (4205, 1), (4206, 1), (4207, 1), (4208, 1), (4209, 1),
    (4210, 1), (4211, 1), (4212, 1), (4213, 1), (4214, 1), (4215, 1), (4216, 1), (4217, 1),
    (4218, 1), (4219, 1), (4220, 1), (4221, 1), (4222, 1), (4223, 1), (4224, 1), (4225, 1),
    (4226, 1), (4227, 1), (4228, 1), (4229, 1), (4230, 1), (4231, 1), (4232, 1), (4233, 1),
    (4234, 1), (4235, 1), (4236, 1), (4237, 1), (4238, 1), (4239, 1), (4240, 1), (4241, 1),
    (4242, 1), (4243, 1), (4244, 1), (4245, 1), (4246, 1), (4247, 1), (4248, 1), (4249, 1),
    (4250, 1), (4251, 1), (4252, 1), (4253, 1), (4254, 1), (4255, 1), (4256, 1), (4257, 1),
    (4258, 1), (4259, 1), (4260, 1), (4261, 1), (4262, 1), (4263, 1), (4264, 1), (4265, 1),
    (4266, 1), (4267, 1), (4268, 1), (4269, 1), (4270, 1), (4271, 1), (4272, 1), (4273, 1),
    (4274, 1), (4275, 1), (4276, 1), (4277, 1), (4278, 1), (4279, 1), (4280, 1), (4281, 1),
    (4282, 1), (4283, 1), (4284, 1), (4285, 1), (4286, 1), (4287, 1), (4288, 1), (4289, 1),
    (4290, 1), (4291, 1), (4292, 1), (4293, 1), (4294, 1), (4295, 1), (4296, 1), (4297, 1),
    (4298, 1), (4299, 1), (4300, 1), (4301, 1), (4302, 1), (4303, 1), (4304, 1), (4305, 1),
    (4306, 1), (4307, 1), (4308, 1), (4309, 1), (4310, 1), (4311, 1), (4312, 1), (4313, 1),
    (4314, 1), (4315, 1), (4316, 1), (4317, 1), (4318, 1), (4319, 1), (4320, 1), (4321, 1),
    (4322, 1), (4323, 1), (4324, 1), (4325, 1), (4326, 1), (4327, 1), (4328, 1), (4329, 1),
    (4330, 1), (4331, 1), (4332, 1), (4333, 1), (4334, 1), (4335, 1), (4336, 1), (4337, 1),
    (4338, 1), (4339, 1), (4340, 1), (4341, 1), (4342, 1), (4343, 1), (4344, 1), (4345, 1),
    (4346, 1), (4347, 1), (4348, 1), (4349, 1), (4350, 1), (4351, 1), (4352, 1), (4353, 1),
    (4354, 1), (4355, 1), (4356, 1), (4357, 1), (4358, 1), (4359, 1), (4360, 1), (4361, 1),
    (4362, 1), (4363, 1), (4364, 1), (4365, 1), (4366, 1), (4367, 1), (4368, 1), (4369, 1),
    (4370, 1), (4371, 1), (4372, 1), (4373, 1), (4374, 1), (4375, 1), (4376, 1), (4377, 1),
    (4378, 1), (4379, 1), (4380, 1), (4381, 1), (4382, 1), (4383, 1), (4384, 1), (4385, 1),
    (4386, 1), (4387, 1), (4388, 1), (4389, 1), (4390, 1), (4391, 1), (4392, 1), (4393, 1),
    (4394, 1), (4395, 1), (4396, 1), (4397, 1), (4398, 1), (4399, 1), (4400, 1), (4401, 1),
    (4402, 1), (4403, 1), (4404, 1), (4405, 1), (4406, 1), (4407, 1), (4408, 1), (4409, 1),
    (4410, 1), (4411, 1), (4412, 1), (4413, 1), (4414, 1), (4415, 1), (4416, 1), (4417, 1),
    (4418, 1), (4419, 1), (4420, 1), (4421, 1), (4422, 1), (4423, 1), (4424, 1), (4425, 1),
    (4426, 1), (4427, 1), (4428, 1), (4429, 1), (4430, 1), (4431, 1), (4432, 1), (4433, 1),
    (4434, 1), (4435, 1), (4436, 1), (4437, 1), (4438, 1), (4439, 1), (4440, 1), (4441, 1),
    (4442, 1), (4443, 1), (4444, 1), (4445, 1), (4446, 1), (4447, 1), (4448, 1), (4449, 1),
    (4450, 1), (4451, 1), (4452, 1), (4453, 1), (4454, 1), (4455, 1), (4456, 1), (4457, 1),
    (4458, 1), (4459, 1), (4460, 1), (4461, 1), (4462, 1), (4463, 1), (4464, 1), (4465, 1),
    (4466, 1), (4467, 1), (4468, 1), (4469, 1), (4470, 1), (4471, 1), (4472, 1), (4473, 1),
    (4474, 1), (4475, 1), (4476, 1), (4477, 1), (4478, 1), (4479, 1), (4480, 1), (4481, 1),
    (4482, 1), (4483, 1), (4484, 1), (4485, 1), (4486, 1), (4487, 1), (4488, 1), (4489, 1),
    (4490, 1), (4491, 1), (4492, 1), (4493, 1), (4494, 1), (4495, 1), (4496, 1), (4497, 1),
    (4498, 1), (4499, 1), (4500, 1), (4501, 1), (4502, 1), (4503, 1), (4504, 1), (4505, 1),
    (4506, 1), (4507, 1), (4508, 1), (4509, 1), (4510, 1), (4511, 1), (4512, 1), (4513, 1),
    (4514, 1), (4515, 1), (4516, 1), (4517, 1), (4518, 1), (4519, 1), (4520, 1), (4521, 1),
    (4522, 1), (4523, 1), (4524, 1), (4525, 1), (4526, 1), (4527, 1), (4528, 1), (4529, 1),
    (4530, 1), (4531, 1), (4532, 1), (4533, 1), (4534, 1), (4535, 1), (4536, 1), (4537, 1),
    (4538, 1), (4539, 1), (4540, 1), (4541, 1), (4542, 1), (4543, 1), (4544, 1), (4545, 1),
    (4546, 1), (4547, 1), (4548, 1), (4549, 1), (4550, 1), (4551, 1), (4552, 1), (4553, 1),
    (4554, 1), (4555, 1), (4556, 1), (4557, 1), (4558, 1), (4559, 1), (4560, 1), (4561, 1),
    (4562, 1), (4563, 1), (4564, 1), (4565, 1), (4566, 1), (4567, 1), (4568, 1), (4569, 1),
    (4570, 1), (4571, 1), (4572, 1), (4573, 1), (4574, 1), (4575, 1), (4576, 1), (4577, 1),
    (4578, 1), (4579, 1), (4580, 1), (4581, 1), (4582, 1), (4583, 1), (4584, 1), (4585, 1),
    (4586, 1), (4587, 1), (4588, 1), (4589, 1), (4590, 1), (4591, 1), (4592, 1), (4593, 1),
    (4594, 1), (4595, 1), (4596, 1), (4597, 1), (4598, 1), (4599, 1), (4600, 1), (4601, 1),
    (4602, 1), (4603, 1), (4604, 1), (4605, 1), (4606, 1), (4607, 1), (4608, 1), (4609, 1),
    (4610, 1), (4611, 1), (4612, 1), (4613, 1), (4614, 1), (4615, 1), (4616, 1), (4617, 1),
    (4618, 1), (4619, 1), (4620, 1), (4621, 1), (4622, 1), (4623, 1), (4624, 1), (4625, 1),
    (4626, 1), (4627, 1), (4628, 1), (4629, 1), (4630, 1), (4631, 1), (4632, 1), (4633, 1),
    (4634, 1), (4635, 1), (4636, 1), (4637, 1), (4638, 1), (4639, 1), (4640, 1), (4641, 1),
    (4642, 1), (4643, 1), (4644, 1), (4645, 1), (4646, 1), (4647, 1), (4648, 1), (4649, 1),
    (4650, 1), (4651, 1), (4652, 1), (4653, 1), (4654, 1), (4655, 1), (4656, 1), (4657, 1),
    (4658, 1), (4659, 1), (4660, 1), (4661, 1), (4662, 1), (4663, 1), (4664, 1), (4665, 1),
    (4666, 1), (4667, 1), (4668, 1), (4669, 1), (4670, 1), (4671, 1), (4672, 1), (4673, 1),
    (4674, 1), (4675, 1), (4676, 1), (4677, 1), (4678, 1), (4679, 1), (4680, 1), (4681, 1),
];

const COMPATIBILITY_SPANS_3: [(u32, u32); 734] = [
    (4682, 1), (4683, 1), (4684, 1), (4685, 1), (4686, 1), (4687, 1), (4688, 1), (4689, 1),
    (4690, 1), (4691, 1), (4692, 1), (4693, 1), (4694, 1), (4695, 1), (4696, 1), (4697, 1),
    (4698, 1), (4699, 1), (4700, 1), (4701, 1), (4702, 1), (4703, 1), (4704, 1), (4705, 1),
    (4706, 1), (4707, 1), (4708, 1), (4709, 1), (4710, 1), (4711, 1), (4712, 1), (4713, 1),
    (4714, 1), (4715, 1), (4716, 1), (4717, 1), (4718, 1), (4719, 1), (4720, 1), (4721, 1),
    (4722, 1), (4723, 1), (4724, 1), (4725, 1), (4726, 1), (4727, 1), (4728, 1), (4729, 1),
    (4730, 1), (4731, 1), (4732, 1), (4733, 1), (4734, 1), (4735, 1), (4736, 1), (4737, 1),
    (4738, 1), (4739, 1), (4740, 1), (4741, 1), (4742, 1), (4743, 1), (4744, 1), (4745, 1),
    (4746, 1), (4747, 1), (4748, 1), (4749, 1), (4750, 1), (4751, 1), (4752, 1), (4753, 1),
    (4754, 1), (4755, 1), (4756, 1), (4757, 1), (4758, 1), (4759, 1), (4760, 1), (4761, 1),
    (4762, 1), (4763, 1), (4764, 1), (4765, 1), (4766, 1), (4767, 1), (4768, 1), (4769, 1),
    (4770, 1), (4771, 1), (4772, 1), (4773, 1), (4774, 1), (4775, 1), (4776, 1), (4777, 1),
    (4778, 1), (4779, 1), (4780, 1), (4781, 1), (4782, 1), (4783, 1), (4784, 1), (4785, 1),
    (4786, 1), (4787, 1), (4788, 1), (4789, 1), (4790, 1), (4791, 1), (4792, 1), (4793, 1),
    (4794, 1), (4795, 1), (4796, 1), (4797, 1), (4798, 1), (4799, 1), (4800, 1), (4801, 1),
    (4802, 1), (4803, 1), (4804, 1), (4805, 1), (4806, 1), (4807, 1), (4808, 1), (4809, 1),
    (4810, 1), (4811, 1), (4812, 1), (4813, 1), (4814, 1), (4815, 1), (4816, 1), (4817, 1),
    (4818, 1), (4819, 1), (4820, 1), (4821, 1), (4822, 1), (4823, 1), (4824, 1), (4825, 1),
    (4826, 1), (4827, 1), (4828, 1), (4829, 1), (4830, 1), (4831, 1), (4832, 1), (4833, 1),
    (4834, 1), (4835, 1), (4836, 1), (4837, 1), (4838, 1), (4839, 1), (4840, 1), (4841, 1),
    (4842, 1), (4843, 1), (4844, 1), (4845, 1), (4846, 1), (4847, 1), (4848, 1), (4849, 1),
    (4850, 1), (4851, 1), (4852, 1), (4853, 1), (4854, 1), (4855, 1), (4856, 1), (4857, 1),
    (4858, 1), (4859, 1), (4860, 1), (4861, 1), (4862, 1), (4863, 1), (4864, 1), (4865, 1),
    (4866, 1), (4867, 1), (4868, 1), (4869, 1), (4870, 1), (4871, 1), (4872, 1), (4873, 1),
    (4874, 1), (4875, 1), (4876, 1), (4877, 1), (4878, 1), (4879, 1), (4880, 1), (4881, 1),
    (4882, 1), (4883, 1), (4884, 1), (4885, 1), (4886, 1), (4887, 1), (4888, 1), (4889, 1),
    (4890, 1), (4891, 1), (4892, 1), (4893, 1), (4894, 1), (4895, 1), (4896, 1), (4897, 1),
    (4898, 1), (4899, 1), (4900, 1), (4901, 1), (4902, 1), (4903, 1), (4904, 1), (4905, 1),
    (4906, 1), (4907, 1), (4908, 1), (4909, 1), (4910, 1), (4911, 1), (4912, 1), (4913, 1),
    (4914, 1), (4915, 1), (4916, 1), (4917, 1), (4918, 1), (4919, 1), (4920, 1), (4921, 1),
    (4922, 1), (4923, 1), (4924, 1), (4925, 1), (4926, 1), (4927, 1), (4928, 1), (4929, 1),
    (4930, 1), (4931, 1), (4932, 1), (4933, 1), (4934, 1), (4935, 1), (4936, 1), (4937, 1),
    (4938, 1), (4939, 1), (4940, 1), (4941, 1), (4942, 1), (4943, 1), (4944, 1), (4945, 1),
    (4946, 1), (4947, 1), (4948, 1), (4949, 1), (4950, 1), (4951, 1), (4952, 1), (4953, 1),
    (4954, 1), (4955, 1), (4956, 1), (4957, 1), (4958, 1), (4959, 1), (4960, 1), (4961, 1),
    (4962, 1), (4963, 1), (4964, 1), (4965, 1), (4966, 1), (4967, 1), (4968, 1), (4969, 1),
    (4970, 1), (4971, 1), (4972, 1), (4973, 1), (4974, 1), (4975, 1), (4976, 1), (4977, 1),
    (4978, 1), (4979, 1), (4980, 1), (4981, 1), (4982, 1), (4983, 1), (4984, 1), (4985, 1),
    (4986, 1), (4987, 1), (4988, 1), (4989, 1), (4990, 1), (4991, 1), (4992, 1), (4993, 1),
    (4994, 1), (4995, 1), (4996, 1), (4997, 1), (4998, 1), (4999, 1), (5000, 1), (5001, 1),
    (5002, 1), (5003, 1), (5004, 1), (5005, 1), (5006, 1), (5007, 1), (5008, 1), (5009, 1),
    (5010, 1), (5011, 1), (5012, 1), (5013, 1), (5014, 1), (5015, 1), (5016, 1), (5017, 1),
    (5018, 1), (5019, 1), (5020, 1), (5021, 1), (5022, 1), (5023, 1), (5024, 1), (5025, 1),
    (5026, 1), (5027, 1), (5028, 1), (5029, 1), (5030, 1), (5031, 1), (5032, 1), (5033, 1),
    (5034, 1), (5035, 1), (5036, 1), (5037, 1), (5038, 1), (5039, 1), (5040, 1), (5041, 1),
    (5042, 1), (5043, 1), (5044, 1), (5045, 1), (5046, 1), (5047, 1), (5048, 1), (5049, 1),
    (5050, 1), (5051, 1), (5052, 1), (5053, 1), (5054, 1), (5055, 1), (5056, 1), (5057, 1),
    (5058, 1), (5059, 1), (5060, 1), (5061, 1), (5062, 1), (5063, 1), (5064, 1), (5065, 1),
    (5066, 1), (5067, 1), (5068, 1), (5069, 1), (5070, 1), (5071, 1), (5072, 1), (5073, 1),
    (5074, 1), (5075, 1), (5076, 1), (5077, 1), (5078, 1), (5079, 1), (5080, 1), (5081, 1),
    (5082, 1), (5083, 1), (5084, 1), (5085, 1), (5086, 1), (5087, 1), (5088, 1), (5089, 1),
    (5090, 1), (5091, 1), (5092, 1), (5093, 1), (5094, 1), (5095, 1), (5096, 1), (5097, 1),
    (5098, 1), (5099, 1), (5100, 1), (5101, 1), (5102, 1), (5103, 1), (5104, 1), (5105, 1),
    (5106, 1), (5107, 1), (5108, 1), (5109, 1), (5110, 1), (5111, 1), (5112, 1), (5113, 1),
    (5114, 1), (5115, 1), (5116, 1), (5117, 1), (5118, 1), (5119, 1), (5120, 1), (5121, 1),
    (5122, 1), (5123, 1), (5124, 1), (5125, 1), (5126, 1), (5127, 1), (5128, 1), (5129, 1),
    (5130, 1), (5131, 1), (5132, 1), (5133, 1), (5134, 1), (5135, 1), (5136, 1), (5137, 1),
    (5138, 1), (5139, 1), (5140, 1), (5141, 1), (5142, 1), (5143, 1), (5144, 1), (5145, 1),
    (5146, 1), (5147, 1), (5148, 1), (5149, 1), (5150, 1), (5151, 1), (5152, 1), (5153, 1),
    (5154, 1), (5155, 1), (5156, 1), (5157, 1), (5158, 1), (5159, 1), (5160, 1), (5161, 1),
    (5162, 1), (5163, 1), (5164, 1), (5165, 1), (5166, 1), (5167, 1), (5168, 1), (5169, 1),
    (5170, 1), (5171, 1), (5172, 1), (5173, 1), (5174, 1), (5175, 1), (5176, 1), (5177, 1),
    (5178, 1), (5179, 1), (5180, 1), (5181, 1), (5182, 1), (5183, 1), (5184, 1), (5185, 1),
    (5186, 1), (5187, 1), (5188, 1), (5189, 1), (5190, 1), (5191, 1), (5192, 1), (5193, 1),
    (5194, 1), (5195, 1), (5196, 1), (5197, 1), (5198, 1), (5199, 1), (5200, 1), (5201, 1),
    (5202, 1), (5203, 1), (5204, 1), (5205, 1), (5206, 1), (5207, 1), (5208, 1), (5209, 1),
    (5210, 1), (5211, 1), (5212, 1), (5213, 1), (5214, 1), (5215, 1), (5216, 1), (5217, 1),
    (5218, 1), (5219, 1), (5220, 1), (5221, 1), (5222, 1), (5223, 1), (5224, 1), (5225, 1),
    (5226, 1), (5227, 1), (5228, 1), (5229, 1), (5230, 1), (5231, 1), (5232, 1), (5233, 1),
    (5234, 1), (5235, 1), (5236, 1), (5237, 1), (5238, 1), (5239, 1), (5240, 1), (5241, 1),
    (5242, 1), (5243, 1), (5244, 1), (5245, 1), (5246, 1), (5247, 1), (5248, 1), (5249, 1),
    (5250, 1), (5251, 1), (5252, 1), (5253, 1), (5254, 1), (5255, 1), (5256, 1), (5257, 1),
    (5258, 1), (5259, 1), (5260, 1), (5261, 1), (5262, 1), (5263, 1), (5264, 1), (5265, 1),
    (5266, 1), (5267, 1), (5268, 1), (5269, 1), (5270, 2), (5272, 2), (5274, 2), (5276, 2),
    (5278, 2), (5280, 2), (5282, 2), (5284, 2), (5286, 2), (5288, 2), (5290, 2), (5292, 3),
    (5295, 3), (5298, 3), (5301, 3), (5304, 3), (5307, 3), (5310, 3), (5313, 3), (5316, 3),
    (5319, 3), (5322, 3), (5325, 3), (5328, 3), (5331, 3), (5334, 3), (5337, 3), (5340, 3),
    (5343, 3), (5346, 3), (5349, 3), (5352, 3), (5355, 3), (5358, 3), (5361, 3), (5364, 3),
    (5367, 3), (5370, 3), (5373, 1), (5374, 1), (5375, 2), (5377, 2), (5379, 1), (5380, 1),
    (5381, 1), (5382, 1), (5383, 1), (5384, 1), (5385, 1), (5386, 1), (5387, 1), (5388, 1),
    (5389, 1), (5390, 1), (5391, 1), (5392, 1), (5393, 1), (5394, 1), (5395, 1), (5396, 1),
    (5397, 1), (5398, 1), (5399, 1), (5400, 1), (5401, 1), (5402, 1), (5403, 1), (5404, 1),
    (5405, 2), (5407, 2), (5409, 2), (5411, 2), (5413, 3), (5416, 2), (5418, 2), (5420, 2),
    (5422, 2), (5424, 2), (5426, 2), (5428, 2), (5430, 1), (5431, 1), (5432, 1), (5433, 1),
    (5434, 1), (5435, 1), (5436, 1), (5437, 1), (5438, 1), (5439, 1), (5440, 1), (5441, 1),
    (5442, 1), (5443, 1), (5444, 1), (5445, 1), (5446, 1), (5447, 1), (5448, 1), (5449, 1),
    (5450, 1), (5451, 1), (5452, 1), (5453, 1), (5454, 1), (5455, 1), (5456, 1), (5457, 1),
    (5458, 1), (5459, 1), (5460, 1), (5461, 1), (5462, 1), (5463, 1), (5464, 1), (5465, 1),
    (5466, 1), (5467, 1), (5468, 1), (5469, 1), (5470, 1), (5471, 1), (5472, 1), (5473, 1),
    (5474, 1), (5475, 3), (5478, 3), (5481, 3), (5484, 3), (5487, 3), (5490, 3), (5493, 3),
    (5496, 3), (5499, 3), (5502, 1), (5503, 1), (5504, 1), (5505, 1), (5506, 1), (5507, 1),
    (5508, 1), (5509, 1), (5510, 1), (5511, 1), (5512, 1), (5513, 1),
];

/// Offset and length in `compatibility_pool_data` of each decomposition of `compatibility_keys_data`.
pub closed spec fn compatibility_spans_data() -> Seq<(u32, u32)> {
    Seq::empty() + COMPATIBILITY_SPANS_0@ + COMPATIBILITY_SPANS_1@ + COMPATIBILITY_SPANS_2@ + COMPATIBILITY_SPANS_3@
}

/// The entries of `compatibility_spans_data`, in one vector.
pub fn compatibility_spans() -> (r: Vec<(u32, u32)>)
    ensures
        r@ == compatibility_spans_data(),
{
    let mut v: Vec<(u32, u32)> = Vec::new();
    push_all(&mut v, &COMPATIBILITY_SPANS_0);
    push_all(&mut v, &COMPATIBILITY_SPANS_1);
    push_all(&mut v, &COMPATIBILITY_SPANS_2);
    push_all(&mut v, &COMPATIBILITY_SPANS_3);
    v
}

const COMPATIBILITY_POOL_0: [u32; 1000] = [
    0x0020, 0x0020, 0x0308, 0x0061, 0x0020, 0x0304, 0x0032, 0x0033, 0x0020, 0x0301,
    0x03BC, 0x0020, 0x0327, 0x0031, 0x006F, 0x0031, 0x2044, 0x0034, 0x0031, 0x2044,
    0x0032, 0x0033, 0x2044, 0x0034, 0x0049, 0x004A, 0x0069, 0x006A, 0x004C, 0x00B7,
    0x006C, 0x00B7, 0x02BC, 0x006E, 0x0073, 0x0044, 0x017D, 0x0044, 0x017E, 0x0064,
    0x017E, 0x004C, 0x004A, 0x004C, 0x006A, 0x006C, 0x006A, 0x004E, 0x004A, 0x004E,
    0x006A, 0x006E, 0x006A, 0x0044, 0x005A, 0x0044, 0x007A, 0x0064, 0x007A, 0x0068,
    0x0266, 0x006A, 0x0072, 0x0279, 0x027B, 0x0281, 0x0077, 0x0079, 0x0020, 0x0306,
    0x0020, 0x0307, 0x0020, 0x030A, 0x0020, 0x0328, 0x0020, 0x0303, 0x0020, 0x030B,
    0x0263, 0x006C, 0x0073, 0x0078, 0x0295, 0x0020, 0x0345, 0x0020, 0x0301, 0x03B2,
    0x03B8, 0x03A5, 0x03C6, 0x03C0, 0x03BA, 0x03C1, 0x03C2, 0x0398, 0x03B5, 0x03A3,
    0x0565, 0x0582, 0x0627, 0x0674, 0x0648, 0x0674, 0x06C7, 0x0674, 0x064A, 0x0674,
    0x0E4D, 0x0E32, 0x0ECD, 0x0EB2, 0x0EAB, 0x0E99, 0x0EAB, 0x0EA1, 0x0F0B, 0x0FB2,
    0x0F81, 0x0FB3, 0x0F81, 0x10DC, 0x0041, 0x00C6, 0x0042, 0x0044, 0x0045, 0x018E,
    0x0047, 0x0048, 0x0049, 0x004A, 0x004B, 0x004C, 0x004D, 0x004E, 0x004F, 0x0222,
    0x0050, 0x0052, 0x0054, 0x0055, 0x0057, 0x0061, 0x0250, 0x0251, 0x1D02, 0x0062,
    0x0064, 0x0065, 0x0259, 0x025B, 0x025C, 0x0067, 0x006B, 0x006D, 0x014B, 0x006F,
    0x0254, 0x1D16, 0x1D17, 0x0070, 0x0074, 0x0075, 0x1D1D, 0x026F, 0x0076, 0x1D25,
    0x03B2, 0x03B3, 0x03B4, 0x03C6, 0x03C7, 0x0069, 0x0072, 0x0075, 0x0076, 0x03B2,
    0x03B3, 0x03C1, 0x03C6, 0x03C7, 0x043D, 0x0252, 0x0063, 0x0255, 0x00F0, 0x025C,
    0x0066, 0x025F, 0x0261, 0x0265, 0x0268, 0x0269, 0x026A, 0x1D7B, 0x029D, 0x026D,
    0x1D85, 0x029F, 0x0271, 0x0270, 0x0272, 0x0273, 0x0274, 0x0275, 0x0278, 0x0282,
    0x0283, 0x01AB, 0x0289, 0x028A, 0x1D1C, 0x028B, 0x028C, 0x007A, 0x0290, 0x0291,
    0x0292, 0x03B8, 0x0061, 0x02BE, 0x0020, 0x0313, 0x0020, 0x0313, 0x0020, 0x0342,
    0x0020, 0x0314, 0x0020, 0x0020, 0x0020, 0x0020, 0x0020, 0x0020, 0x0020, 0x0020,
    0x0020, 0x2010, 0x0020, 0x0333, 0x002E, 0x002E, 0x002E, 0x002E, 0x002E, 0x002E,
    0x0020, 0x2032, 0x2032, 0x2032, 0x2032, 0x2032, 0x2035, 0x2035, 0x2035, 0x2035,
    0x2035, 0x0021, 0x0021, 0x0020, 0x0305, 0x003F, 0x003F, 0x003F, 0x0021, 0x0021,
    0x003F, 0x2032, 0x2032, 0x2032, 0x2032, 0x0020, 0x0030, 0x0069, 0x0034, 0x0035,
    0x0036, 0x0037, 0x0038, 0x0039, 0x002B, 0x2212, 0x003D, 0x0028, 0x0029, 0x006E,
    0x0030, 0x0031, 0x0032, 0x0033, 0x0034, 0x0035, 0x0036, 0x0037, 0x0038, 0x0039,
    0x002B, 0x2212, 0x003D, 0x0028, 0x0029, 0x0061, 0x0065, 0x006F, 0x0078, 0x0259,
    0x0068, 0x006B, 0x006C, 0x006D, 0x006E, 0x0070, 0x0073, 0x0074, 0x0052, 0x0073,
    0x0061, 0x002F, 0x0063, 0x0061, 0x002F, 0x0073, 0x0043, 0x00B0, 0x0043, 0x0063,
    0x002F, 0x006F, 0x0063, 0x002F, 0x0075, 0x0190, 0x00B0, 0x0046, 0x0067, 0x0048,
    0x0048, 0x0048, 0x0068, 0x0127, 0x0049, 0x0049, 0x004C, 0x006C, 0x004E, 0x004E,
    0x006F, 0x0050, 0x0051, 0x0052, 0x0052, 0x0052, 0x0053, 0x004D, 0x0054, 0x0045,
    0x004C, 0x0054, 0x004D, 0x005A, 0x005A, 0x0042, 0x0043, 0x0065, 0x0045, 0x0046,
    0x004D, 0x006F, 0x05D0, 0x05D1, 0x05D2, 0x05D3, 0x0069, 0x0046, 0x0041, 0x0058,
    0x03C0, 0x03B3, 0x0393, 0x03A0, 0x2211, 0x0044, 0x0064, 0x0065, 0x0069, 0x006A,
    0x0031, 0x2044, 0x0037, 0x0031, 0x2044, 0x0039, 0x0031, 0x2044, 0x0031, 0x0030,
    0x0031, 0x2044, 0x0033, 0x0032, 0x2044, 0x0033, 0x0031, 0x2044, 0x0035, 0x0032,
    0x2044, 0x0035, 0x0033, 0x2044, 0x0035, 0x0034, 0x2044, 0x0035, 0x0031, 0x2044,
    0x0036, 0x0035, 0x2044, 0x0036, 0x0031, 0x2044, 0x0038, 0x0033, 0x2044, 0x0038,
    0x0035, 0x2044, 0x0038, 0x0037, 0x2044, 0x0038, 0x0031, 0x2044, 0x0049, 0x0049,
    0x0049, 0x0049, 0x0049, 0x0049, 0x0049, 0x0056, 0x0056, 0x0056, 0x0049, 0x0056,
    0x0049, 0x0049, 0x0056, 0x0049, 0x0049, 0x0049, 0x0049, 0x0058, 0x0058, 0x0058,
    0x0049, 0x0058, 0x0049, 0x0049, 0x004C, 0x0043, 0x0044, 0x004D, 0x0069, 0x0069,
    0x0069, 0x0069, 0x0069, 0x0069, 0x0069, 0x0076, 0x0076, 0x0076, 0x0069, 0x0076,
    0x0069, 0x0069, 0x0076, 0x0069, 0x0069, 0x0069, 0x0069, 0x0078, 0x0078, 0x0078,
    0x0069, 0x0078, 0x0069, 0x0069, 0x006C, 0x0063, 0x0064, 0x006D, 0x0030, 0x2044,
    0x0033, 0x222B, 0x222B, 0x222B, 0x222B, 0x222B, 0x222E, 0x222E, 0x222E, 0x222E,
    0x222E, 0x0031, 0x0032, 0x0033, 0x0034, 0x0035, 0x0036, 0x0037, 0x0038, 0x0039,
    0x0031, 0x0030, 0x0031, 0x0031, 0x0031, 0x0032, 0x0031, 0x0033, 0x0031, 0x0034,
    0x0031, 0x0035, 0x0031, 0x0036, 0x0031, 0x0037, 0x0031, 0x0038, 0x0031, 0x0039,
    0x0032, 0x0030, 0x0028, 0x0031, 0x0029, 0x0028, 0x0032, 0x0029, 0x0028, 0x0033,
    0x0029, 0x0028, 0x0034, 0x0029, 0x0028, 0x0035, 0x0029, 0x0028, 0x0036, 0x0029,
    0x0028, 0x0037, 0x0029, 0x0028, 0x0038, 0x0029, 0x0028, 0x0039, 0x0029, 0x0028,
    0x0031, 0x0030, 0x0029, 0x0028, 0x0031, 0x0031, 0x0029, 0x0028, 0x0031, 0x0032,
    0x0029, 0x0028, 0x0031, 0x0033, 0x0029, 0x0028, 0x0031, 0x0034, 0x0029, 0x0028,
    0x0031, 0x0035, 0x0029, 0x0028, 0x0031, 0x0036, 0x0029, 0x0028, 0x0031, 0x0037,
    0x0029, 0x0028, 0x0031, 0x0038, 0x0029, 0x0028, 0x0031, 0x0039, 0x0029, 0x0028,
    0x0032, 0x0030, 0x0029, 0x0031, 0x002E, 0x0032, 0x002E, 0x0033, 0x002E, 0x0034,
    0x002E, 0x0035, 0x002E, 0x0036, 0x002E, 0x0037, 0x002E, 0x0038, 0x002E, 0x0039,
    0x002E, 0x0031, 0x0030, 0x002E, 0x0031, 0x0031, 0x002E, 0x0031, 0x0032, 0x002E,
    0x0031, 0x0033, 0x002E, 0x0031, 0x0034, 0x002E, 0x0031, 0x0035, 0x002E, 0x0031,
    0x0036, 0x002E, 0x0031, 0x0037, 0x002E, 0x0031, 0x0038, 0x002E, 0x0031, 0x0039,
    0x002E, 0x0032, 0x0030, 0x002E, 0x0028, 0x0061, 0x0029, 0x0028, 0x0062, 0x0029,
    0x0028, 0x0063, 0x0029, 0x0028, 0x0064, 0x0029, 0x0028, 0x0065, 0x0029, 0x0028,
    0x0066, 0x0029, 0x0028, 0x0067, 0x0029, 0x0028, 0x0068, 0x0029, 0x0028, 0x0069,
    0x0029, 0x0028, 0x006A, 0x0029, 0x0028, 0x006B, 0x0029, 0x0028, 0x006C, 0x0029,
    0x0028, 0x006D, 0x0029, 0x0028, 0x006E, 0x0029, 0x0028, 0x006F, 0x0029, 0x0028,
    0x0070, 0x0029, 0x0028, 0x0071, 0x0029, 0x0028, 0x0072, 0x0029, 0x0028, 0x0073,
    0x0029, 0x0028, 0x0074, 0x0029, 0x0028, 0x0075, 0x0029, 0x0028, 0x0076, 0x0029,
    0x0028, 0x0077, 0x0029, 0x0028, 0x0078, 0x0029, 0x0028, 0x0079, 0x0029, 0x0028,
    0x007A, 0x0029, 0x0041, 0x0042, 0x0043, 0x0044, 0x0045, 0x0046, 0x0047, 0x0048,
    0x0049, 0x004A, 0x004B, 0x004C, 0x004D, 0x004E, 0x004F, 0x0050, 0x0051, 0x0052,
    0x0053, 0x0054, 0x0055, 0x0056, 0x0057, 0x0058, 0x0059, 0x005A, 0x0061, 0x0062,
    0x0063, 0x0064, 0x0065, 0x0066, 0x0067, 0x0068, 0x0069, 0x006A, 0x006B, 0x006C,
    0x006D, 0x006E, 0x006F, 0x0070, 0x0071, 0x0072, 0x0073, 0x0074, 0x0075, 0x0076,
    0x0077, 0x0078, 0x0079, 0x007A, 0x0030, 0x222B, 0x222B, 0x222B, 0x222B, 0x003A,
    0x003A, 0x003D, 0x003D, 0x003D, 0x003D, 0x003D, 0x003D, 0x006A, 0x0056, 0x2D61,
    0x6BCD, 0x9F9F, 0x4E00, 0x4E28, 0x4E36, 0x4E3F, 0x4E59, 0x4E85, 0x4E8C, 0x4EA0,
    0x4EBA, 0x513F, 0x5165, 0x516B, 0x5182, 0x5196, 0x51AB, 0x51E0, 0x51F5, 0x5200,
    0x529B, 0x52F9, 0x5315, 0x531A, 0x5338, 0x5341, 0x535C, 0x5369, 0x5382, 0x53B6,
    0x53C8, 0x53E3, 0x56D7, 0x571F, 0x58EB, 0x5902, 0x590A, 0x5915, 0x5927, 0x5973,
    0x5B50, 0x5B80, 0x5BF8, 0x5C0F, 0x5C22, 0x5C38, 0x5C6E, 0x5C71, 0x5DDB, 0x5DE5,
    0x5DF1, 0x5DFE, 0x5E72, 0x5E7A, 0x5E7F, 0x5EF4, 0x5EFE, 0x5F0B, 0x5F13, 0x5F50,
    0x5F61, 0x5F73, 0x5FC3, 0x6208, 0x6236, 0x624B, 0x652F, 0x6534, 0x6587, 0x6597,
    0x65A4, 0x65B9, 0x65E0, 0x65E5, 0x66F0, 0x6708, 0x6728, 0x6B20, 0x6B62, 0x6B79,
    0x6BB3, 0x6BCB, 0x6BD4, 0x6BDB, 0x6C0F, 0x6C14, 0x6C34, 0x706B, 0x722A, 0x7236,
    0x723B, 0x723F, 0x7247, 0x7259, 0x725B, 0x72AC, 0x7384, 0x7389, 0x74DC, 0x74E6,
    0x7518, 0x751F, 0x7528, 0x7530, 0x758B, 0x7592, 0x7676, 0x767D, 0x76AE, 0x76BF,
    0x76EE, 0x77DB, 0x77E2, 0x77F3, 0x793A, 0x79B8, 0x79BE, 0x7A74, 0x7ACB, 0x7AF9,
    0x7C73, 0x7CF8, 0x7F36, 0x7F51, 0x7F8A, 0x7FBD, 0x8001, 0x800C, 0x8012, 0x8033,
    0x807F, 0x8089, 0x81E3, 0x81EA, 0x81F3, 0x81FC, 0x820C, 0x821B, 0x821F, 0x826E,
    0x8272, 0x8278, 0x864D, 0x866B, 0x8840, 0x884C, 0x8863, 0x897E, 0x898B, 0x89D2,
    0x8A00, 0x8C37, 0x8C46, 0x8C55, 0x8C78, 0x8C9D, 0x8D64, 0x8D70, 0x8DB3, 0x8EAB,
    0x8ECA, 0x8F9B, 0x8FB0, 0x8FB5, 0x9091, 0x9149, 0x91C6, 0x91CC, 0x91D1, 0x9577,
    0x9580, 0x961C, 0x96B6, 0x96B9, 0x96E8, 0x9751, 0x975E, 0x9762, 0x9769, 0x97CB,
    0x97ED, 0x97F3, 0x9801, 0x98A8, 0x98DB, 0x98DF, 0x9996, 0x9999, 0x99AC, 0x9AA8,
];

const COMPATIBILITY_POOL_1: [u32; 1000] = [
    0x9AD8, 0x9ADF, 0x9B25, 0x9B2F, 0x9B32, 0x9B3C, 0x9B5A, 0x9CE5, 0x9E75, 0x9E7F,
    0x9EA5, 0x9EBB, 0x9EC3, 0x9ECD, 0x9ED1, 0x9EF9, 0x9EFD, 0x9F0E, 0x9F13, 0x9F20,
    0x9F3B, 0x9F4A, 0x9F52, 0x9F8D, 0x9F9C, 0x9FA0, 0x0020, 0x3012, 0x5341, 0x5344,
    0x5345, 0x0020, 0x3099, 0x0020, 0x309A, 0x3088, 0x308A, 0x30B3, 0x30C8, 0x1100,
    0x1101, 0x11AA, 0x1102, 0x11AC, 0x11AD, 0x1103, 0x1104, 0x1105, 0x11B0, 0x11B1,
    0x11B2, 0x11B3, 0x11B4, 0x11B5, 0x111A, 0x1106, 0x1107, 0x1108, 0x1121, 0x1109,
    0x110A, 0x110B, 0x110C, 0x110D, 0x110E, 0x110F, 0x1110, 0x1111, 0x1112, 0x1161,
    0x1162, 0x1163, 0x1164, 0x1165, 0x1166, 0x1167, 0x1168, 0x1169, 0x116A, 0x116B,
    0x116C, 0x116D, 0x116E, 0x116F, 0x1170, 0x1171, 0x1172, 0x1173, 0x1174, 0x1175,
    0x1160, 0x1114, 0x1115, 0x11C7, 0x11C8, 0x11CC, 0x11CE, 0x11D3, 0x11D7, 0x11D9,
    0x111C, 0x11DD, 0x11DF, 0x111D, 0x111E, 0x1120, 0x1122, 0x1123, 0x1127, 0x1129,
    0x112B, 0x112C, 0x112D, 0x112E, 0x112F, 0x1132, 0x1136, 0x1140, 0x1147, 0x114C,
    0x11F1, 0x11F2, 0x1157, 0x1158, 0x1159, 0x1184, 0x1185, 0x1188, 0x1191, 0x1192,
    0x1194, 0x119E, 0x11A1, 0x4E00, 0x4E8C, 0x4E09, 0x56DB, 0x4E0A, 0x4E2D, 0x4E0B,
    0x7532, 0x4E59, 0x4E19, 0x4E01, 0x5929, 0x5730, 0x4EBA, 0x0028, 0x1100, 0x0029,
    0x0028, 0x1102, 0x0029, 0x0028, 0x1103, 0x0029, 0x0028, 0x1105, 0x0029, 0x0028,
    0x1106, 0x0029, 0x0028, 0x1107, 0x0029, 0x0028, 0x1109, 0x0029, 0x0028, 0x110B,
    0x0029, 0x0028, 0x110C, 0x0029, 0x0028, 0x110E, 0x0029, 0x0028, 0x110F, 0x0029,
    0x0028, 0x1110, 0x0029, 0x0028, 0x1111, 0x0029, 0x0028, 0x1112, 0x0029, 0x0028,
    0x1100, 0x1161, 0x0029, 0x0028, 0x1102, 0x1161, 0x0029, 0x0028, 0x1103, 0x1161,
    0x0029, 0x0028, 0x1105, 0x1161, 0x0029, 0x0028, 0x1106, 0x1161, 0x0029, 0x0028,
    0x1107, 0x1161, 0x0029, 0x0028, 0x1109, 0x1161, 0x0029, 0x0028, 0x110B, 0x1161,
    0x0029, 0x0028, 0x110C, 0x1161, 0x0029, 0x0028, 0x110E, 0x1161, 0x0029, 0x0028,
    0x110F, 0x1161, 0x0029, 0x0028, 0x1110, 0x1161, 0x0029, 0x0028, 0x1111, 0x1161,
    0x0029, 0x0028, 0x1112, 0x1161, 0x0029, 0x0028, 0x110C, 0x116E, 0x0029, 0x0028,
    0x110B, 0x1169, 0x110C, 0x1165, 0x11AB, 0x0029, 0x0028, 0x110B, 0x1169, 0x1112,
    0x116E, 0x0029, 0x0028, 0x4E00, 0x0029, 0x0028, 0x4E8C, 0x0029, 0x0028, 0x4E09,
    0x0029, 0x0028, 0x56DB, 0x0029, 0x0028, 0x4E94, 0x0029, 0x0028, 0x516D, 0x0029,
    0x0028, 0x4E03, 0x0029, 0x0028, 0x516B, 0x0029, 0x0028, 0x4E5D, 0x0029, 0x0028,
    0x5341, 0x0029, 0x0028, 0x6708, 0x0029, 0x0028, 0x706B, 0x0029, 0x0028, 0x6C34,
    0x0029, 0x0028, 0x6728, 0x0029, 0x0028, 0x91D1, 0x0029, 0x0028, 0x571F, 0x0029,
    0x0028, 0x65E5, 0x0029, 0x0028, 0x682A, 0x0029, 0x0028, 0x6709, 0x0029, 0x0028,
    0x793E, 0x0029, 0x0028, 0x540D, 0x0029, 0x0028, 0x7279, 0x0029, 0x0028, 0x8CA1,
    0x0029, 0x0028, 0x795D, 0x0029, 0x0028, 0x52B4, 0x0029, 0x0028, 0x4EE3, 0x0029,
    0x0028, 0x547C, 0x0029, 0x0028, 0x5B66, 0x0029, 0x0028, 0x76E3, 0x0029, 0x0028,
    0x4F01, 0x0029, 0x0028, 0x8CC7, 0x0029, 0x0028, 0x5354, 0x0029, 0x0028, 0x796D,
    0x0029, 0x0028, 0x4F11, 0x0029, 0x0028, 0x81EA, 0x0029, 0x0028, 0x81F3, 0x0029,
    0x554F, 0x5E7C, 0x6587, 0x7B8F, 0x0050, 0x0054, 0x0045, 0x0032, 0x0031, 0x0032,
    0x0032, 0x0032, 0x0033, 0x0032, 0x0034, 0x0032, 0x0035, 0x0032, 0x0036, 0x0032,
    0x0037, 0x0032, 0x0038, 0x0032, 0x0039, 0x0033, 0x0030, 0x0033, 0x0031, 0x0033,
    0x0032, 0x0033, 0x0033, 0x0033, 0x0034, 0x0033, 0x0035, 0x1100, 0x1102, 0x1103,
    0x1105, 0x1106, 0x1107, 0x1109, 0x110B, 0x110C, 0x110E, 0x110F, 0x1110, 0x1111,
    0x1112, 0x1100, 0x1161, 0x1102, 0x1161, 0x1103, 0x1161, 0x1105, 0x1161, 0x1106,
    0x1161, 0x1107, 0x1161, 0x1109, 0x1161, 0x110B, 0x1161, 0x110C, 0x1161, 0x110E,
    0x1161, 0x110F, 0x1161, 0x1110, 0x1161, 0x1111, 0x1161, 0x1112, 0x1161, 0x110E,
    0x1161, 0x11B7, 0x1100, 0x1169, 0x110C, 0x116E, 0x110B, 0x1174, 0x110B, 0x116E,
    0x4E00, 0x4E8C, 0x4E09, 0x56DB, 0x4E94, 0x516D, 0x4E03, 0x516B, 0x4E5D, 0x5341,
    0x6708, 0x706B, 0x6C34, 0x6728, 0x91D1, 0x571F, 0x65E5, 0x682A, 0x6709, 0x793E,
    0x540D, 0x7279, 0x8CA1, 0x795D, 0x52B4, 0x79D8, 0x7537, 0x5973, 0x9069, 0x512A,
    0x5370, 0x6CE8, 0x9805, 0x4F11, 0x5199, 0x6B63, 0x4E0A, 0x4E2D, 0x4E0B, 0x5DE6,
    0x53F3, 0x533B, 0x5B97, 0x5B66, 0x76E3, 0x4F01, 0x8CC7, 0x5354, 0x591C, 0x0033,
    0x0036, 0x0033, 0x0037, 0x0033, 0x0038, 0x0033, 0x0039, 0x0034, 0x0030, 0x0034,
    0x0031, 0x0034, 0x0032, 0x0034, 0x0033, 0x0034, 0x0034, 0x0034, 0x0035, 0x0034,
    0x0036, 0x0034, 0x0037, 0x0034, 0x0038, 0x0034, 0x0039, 0x0035, 0x0030, 0x0031,
    0x6708, 0x0032, 0x6708, 0x0033, 0x6708, 0x0034, 0x6708, 0x0035, 0x6708, 0x0036,
    0x6708, 0x0037, 0x6708, 0x0038, 0x6708, 0x0039, 0x6708, 0x0031, 0x0030, 0x6708,
    0x0031, 0x0031, 0x6708, 0x0031, 0x0032, 0x6708, 0x0048, 0x0067, 0x0065, 0x0072,
    0x0067, 0x0065, 0x0056, 0x004C, 0x0054, 0x0044, 0x30A2, 0x30A4, 0x30A6, 0x30A8,
    0x30AA, 0x30AB, 0x30AD, 0x30AF, 0x30B1, 0x30B3, 0x30B5, 0x30B7, 0x30B9, 0x30BB,
    0x30BD, 0x30BF, 0x30C1, 0x30C4, 0x30C6, 0x30C8, 0x30CA, 0x30CB, 0x30CC, 0x30CD,
    0x30CE, 0x30CF, 0x30D2, 0x30D5, 0x30D8, 0x30DB, 0x30DE, 0x30DF, 0x30E0, 0x30E1,
    0x30E2, 0x30E4, 0x30E6, 0x30E8, 0x30E9, 0x30EA, 0x30EB, 0x30EC, 0x30ED, 0x30EF,
    0x30F0, 0x30F1, 0x30F2, 0x4EE4, 0x548C, 0x30A2, 0x30D1, 0x30FC, 0x30C8, 0x30A2,
    0x30EB, 0x30D5, 0x30A1, 0x30A2, 0x30F3, 0x30DA, 0x30A2, 0x30A2, 0x30FC, 0x30EB,
    0x30A4, 0x30CB, 0x30F3, 0x30B0, 0x30A4, 0x30F3, 0x30C1, 0x30A6, 0x30A9, 0x30F3,
    0x30A8, 0x30B9, 0x30AF, 0x30FC, 0x30C9, 0x30A8, 0x30FC, 0x30AB, 0x30FC, 0x30AA,
    0x30F3, 0x30B9, 0x30AA, 0x30FC, 0x30E0, 0x30AB, 0x30A4, 0x30EA, 0x30AB, 0x30E9,
    0x30C3, 0x30C8, 0x30AB, 0x30ED, 0x30EA, 0x30FC, 0x30AC, 0x30ED, 0x30F3, 0x30AC,
    0x30F3, 0x30DE, 0x30AE, 0x30AC, 0x30AE, 0x30CB, 0x30FC, 0x30AD, 0x30E5, 0x30EA,
    0x30FC, 0x30AE, 0x30EB, 0x30C0, 0x30FC, 0x30AD, 0x30ED, 0x30AD, 0x30ED, 0x30B0,
    0x30E9, 0x30E0, 0x30AD, 0x30ED, 0x30E1, 0x30FC, 0x30C8, 0x30EB, 0x30AD, 0x30ED,
    0x30EF, 0x30C3, 0x30C8, 0x30B0, 0x30E9, 0x30E0, 0x30B0, 0x30E9, 0x30E0, 0x30C8,
    0x30F3, 0x30AF, 0x30EB, 0x30BC, 0x30A4, 0x30ED, 0x30AF, 0x30ED, 0x30FC, 0x30CD,
    0x30B1, 0x30FC, 0x30B9, 0x30B3, 0x30EB, 0x30CA, 0x30B3, 0x30FC, 0x30DD, 0x30B5,
    0x30A4, 0x30AF, 0x30EB, 0x30B5, 0x30F3, 0x30C1, 0x30FC, 0x30E0, 0x30B7, 0x30EA,
    0x30F3, 0x30B0, 0x30BB, 0x30F3, 0x30C1, 0x30BB, 0x30F3, 0x30C8, 0x30C0, 0x30FC,
    0x30B9, 0x30C7, 0x30B7, 0x30C9, 0x30EB, 0x30C8, 0x30F3, 0x30CA, 0x30CE, 0x30CE,
    0x30C3, 0x30C8, 0x30CF, 0x30A4, 0x30C4, 0x30D1, 0x30FC, 0x30BB, 0x30F3, 0x30C8,
    0x30D1, 0x30FC, 0x30C4, 0x30D0, 0x30FC, 0x30EC, 0x30EB, 0x30D4, 0x30A2, 0x30B9,
    0x30C8, 0x30EB, 0x30D4, 0x30AF, 0x30EB, 0x30D4, 0x30B3, 0x30D3, 0x30EB, 0x30D5,
    0x30A1, 0x30E9, 0x30C3, 0x30C9, 0x30D5, 0x30A3, 0x30FC, 0x30C8, 0x30D6, 0x30C3,
    0x30B7, 0x30A7, 0x30EB, 0x30D5, 0x30E9, 0x30F3, 0x30D8, 0x30AF, 0x30BF, 0x30FC,
    0x30EB, 0x30DA, 0x30BD, 0x30DA, 0x30CB, 0x30D2, 0x30D8, 0x30EB, 0x30C4, 0x30DA,
    0x30F3, 0x30B9, 0x30DA, 0x30FC, 0x30B8, 0x30D9, 0x30FC, 0x30BF, 0x30DD, 0x30A4,
    0x30F3, 0x30C8, 0x30DC, 0x30EB, 0x30C8, 0x30DB, 0x30F3, 0x30DD, 0x30F3, 0x30C9,
    0x30DB, 0x30FC, 0x30EB, 0x30DB, 0x30FC, 0x30F3, 0x30DE, 0x30A4, 0x30AF, 0x30ED,
    0x30DE, 0x30A4, 0x30EB, 0x30DE, 0x30C3, 0x30CF, 0x30DE, 0x30EB, 0x30AF, 0x30DE,
    0x30F3, 0x30B7, 0x30E7, 0x30F3, 0x30DF, 0x30AF, 0x30ED, 0x30F3, 0x30DF, 0x30EA,
    0x30DF, 0x30EA, 0x30D0, 0x30FC, 0x30EB, 0x30E1, 0x30AC, 0x30E1, 0x30AC, 0x30C8,
    0x30F3, 0x30E1, 0x30FC, 0x30C8, 0x30EB, 0x30E4, 0x30FC, 0x30C9, 0x30E4, 0x30FC,
    0x30EB, 0x30E6, 0x30A2, 0x30F3, 0x30EA, 0x30C3, 0x30C8, 0x30EB, 0x30EA, 0x30E9,
    0x30EB, 0x30D4, 0x30FC, 0x30EB, 0x30FC, 0x30D6, 0x30EB, 0x30EC, 0x30E0, 0x30EC,
    0x30F3, 0x30C8, 0x30B2, 0x30F3, 0x30EF, 0x30C3, 0x30C8, 0x0030, 0x70B9, 0x0031,
    0x70B9, 0x0032, 0x70B9, 0x0033, 0x70B9, 0x0034, 0x70B9, 0x0035, 0x70B9, 0x0036,
    0x70B9, 0x0037, 0x70B9, 0x0038, 0x70B9, 0x0039, 0x70B9, 0x0031, 0x0030, 0x70B9,
    0x0031, 0x0031, 0x70B9, 0x0031, 0x0032, 0x70B9, 0x0031, 0x0033, 0x70B9, 0x0031,
    0x0034, 0x70B9, 0x0031, 0x0035, 0x70B9, 0x0031, 0x0036, 0x70B9, 0x0031, 0x0037,
    0x70B9, 0x0031, 0x0038, 0x70B9, 0x0031, 0x0039, 0x70B9, 0x0032, 0x0030, 0x70B9,
    0x0032, 0x0031, 0x70B9, 0x0032, 0x0032, 0x70B9, 0x0032, 0x0033, 0x70B9, 0x0032,
    0x0034, 0x70B9, 0x0068, 0x0050, 0x0061, 0x0064, 0x0061, 0x0041, 0x0055, 0x0062,
];

const COMPATIBILITY_POOL_2: [u32; 1000] = [
    0x0061, 0x0072, 0x006F, 0x0056, 0x0070, 0x0063, 0x0064, 0x006D, 0x0064, 0x006D,
    0x00B2, 0x0064, 0x006D, 0x00B3, 0x0049, 0x0055, 0x5E73, 0x6210, 0x662D, 0x548C,
    0x5927, 0x6B63, 0x660E, 0x6CBB, 0x682A, 0x5F0F, 0x4F1A, 0x793E, 0x0070, 0x0041,
    0x006E, 0x0041, 0x03BC, 0x0041, 0x006D, 0x0041, 0x006B, 0x0041, 0x004B, 0x0042,
    0x004D, 0x0042, 0x0047, 0x0042, 0x0063, 0x0061, 0x006C, 0x006B, 0x0063, 0x0061,
    0x006C, 0x0070, 0x0046, 0x006E, 0x0046, 0x03BC, 0x0046, 0x03BC, 0x0067, 0x006D,
    0x0067, 0x006B, 0x0067, 0x0048, 0x007A, 0x006B, 0x0048, 0x007A, 0x004D, 0x0048,
    0x007A, 0x0047, 0x0048, 0x007A, 0x0054, 0x0048, 0x007A, 0x03BC, 0x2113, 0x006D,
    0x2113, 0x0064, 0x2113, 0x006B, 0x2113, 0x0066, 0x006D, 0x006E, 0x006D, 0x03BC,
    0x006D, 0x006D, 0x006D, 0x0063, 0x006D, 0x006B, 0x006D, 0x006D, 0x006D, 0x00B2,
    0x0063, 0x006D, 0x00B2, 0x006D, 0x00B2, 0x006B, 0x006D, 0x00B2, 0x006D, 0x006D,
    0x00B3, 0x0063, 0x006D, 0x00B3, 0x006D, 0x00B3, 0x006B, 0x006D, 0x00B3, 0x006D,
    0x2215, 0x0073, 0x006D, 0x2215, 0x0073, 0x00B2, 0x0050, 0x0061, 0x006B, 0x0050,
    0x0061, 0x004D, 0x0050, 0x0061, 0x0047, 0x0050, 0x0061, 0x0072, 0x0061, 0x0064,
    0x0072, 0x0061, 0x0064, 0x2215, 0x0073, 0x0072, 0x0061, 0x0064, 0x2215, 0x0073,
    0x00B2, 0x0070, 0x0073, 0x006E, 0x0073, 0x03BC, 0x0073, 0x006D, 0x0073, 0x0070,
    0x0056, 0x006E, 0x0056, 0x03BC, 0x0056, 0x006D, 0x0056, 0x006B, 0x0056, 0x004D,
    0x0056, 0x0070, 0x0057, 0x006E, 0x0057, 0x03BC, 0x0057, 0x006D, 0x0057, 0x006B,
    0x0057, 0x004D, 0x0057, 0x006B, 0x03A9, 0x004D, 0x03A9, 0x0061, 0x002E, 0x006D,
    0x002E, 0x0042, 0x0071, 0x0063, 0x0063, 0x0063, 0x0064, 0x0043, 0x2215, 0x006B,
    0x0067, 0x0043, 0x006F, 0x002E, 0x0064, 0x0042, 0x0047, 0x0079, 0x0068, 0x0061,
    0x0048, 0x0050, 0x0069, 0x006E, 0x004B, 0x004B, 0x004B, 0x004D, 0x006B, 0x0074,
    0x006C, 0x006D, 0x006C, 0x006E, 0x006C, 0x006F, 0x0067, 0x006C, 0x0078, 0x006D,
    0x0062, 0x006D, 0x0069, 0x006C, 0x006D, 0x006F, 0x006C, 0x0050, 0x0048, 0x0070,
    0x002E, 0x006D, 0x002E, 0x0050, 0x0050, 0x004D, 0x0050, 0x0052, 0x0073, 0x0072,
    0x0053, 0x0076, 0x0057, 0x0062, 0x0056, 0x2215, 0x006D, 0x0041, 0x2215, 0x006D,
    0x0031, 0x65E5, 0x0032, 0x65E5, 0x0033, 0x65E5, 0x0034, 0x65E5, 0x0035, 0x65E5,
    0x0036, 0x65E5, 0x0037, 0x65E5, 0x0038, 0x65E5, 0x0039, 0x65E5, 0x0031, 0x0030,
    0x65E5, 0x0031, 0x0031, 0x65E5, 0x0031, 0x0032, 0x65E5, 0x0031, 0x0033, 0x65E5,
    0x0031, 0x0034, 0x65E5, 0x0031, 0x0035, 0x65E5, 0x0031, 0x0036, 0x65E5, 0x0031,
    0x0037, 0x65E5, 0x0031, 0x0038, 0x65E5, 0x0031, 0x0039, 0x65E5, 0x0032, 0x0030,
    0x65E5, 0x0032, 0x0031, 0x65E5, 0x0032, 0x0032, 0x65E5, 0x0032, 0x0033, 0x65E5,
    0x0032, 0x0034, 0x65E5, 0x0032, 0x0035, 0x65E5, 0x0032, 0x0036, 0x65E5, 0x0032,
    0x0037, 0x65E5, 0x0032, 0x0038, 0x65E5, 0x0032, 0x0039, 0x65E5, 0x0033, 0x0030,
    0x65E5, 0x0033, 0x0031, 0x65E5, 0x0067, 0x0061, 0x006C, 0x044A, 0x044C, 0xA76F,
    0x0043, 0x0046, 0x0051, 0x0126, 0x0153, 0xA727, 0xAB37, 0x026B, 0xAB52, 0x028D,
    0x0066, 0x0066, 0x0066, 0x0069, 0x0066, 0x006C, 0x0066, 0x0066, 0x0069, 0x0066,
    0x0066, 0x006C, 0x017F, 0x0074, 0x0073, 0x0074, 0x0574, 0x0576, 0x0574, 0x0565,
    0x0574, 0x056B, 0x057E, 0x0576, 0x0574, 0x056D, 0x05E2, 0x05D0, 0x05D3, 0x05D4,
    0x05DB, 0x05DC, 0x05DD, 0x05E8, 0x05EA, 0x002B, 0x05D0, 0x05DC, 0x0671, 0x0671,
    0x067B, 0x067B, 0x067B, 0x067B, 0x067E, 0x067E, 0x067E, 0x067E, 0x0680, 0x0680,
    0x0680, 0x0680, 0x067A, 0x067A, 0x067A, 0x067A, 0x067F, 0x067F, 0x067F, 0x067F,
    0x0679, 0x0679, 0x0679, 0x0679, 0x06A4, 0x06A4, 0x06A4, 0x06A4, 0x06A6, 0x06A6,
    0x06A6, 0x06A6, 0x0684, 0x0684, 0x0684, 0x0684, 0x0683, 0x0683, 0x0683, 0x0683,
    0x0686, 0x0686, 0x0686, 0x0686, 0x0687, 0x0687, 0x0687, 0x0687, 0x068D, 0x068D,
    0x068C, 0x068C, 0x068E, 0x068E, 0x0688, 0x0688, 0x0698, 0x0698, 0x0691, 0x0691,
    0x06A9, 0x06A9, 0x06A9, 0x06A9, 0x06AF, 0x06AF, 0x06AF, 0x06AF, 0x06B3, 0x06B3,
    0x06B3, 0x06B3, 0x06B1, 0x06B1, 0x06B1, 0x06B1, 0x06BA, 0x06BA, 0x06BB, 0x06BB,
    0x06BB, 0x06BB, 0x06C0, 0x06C0, 0x06C1, 0x06C1, 0x06C1, 0x06C1, 0x06BE, 0x06BE,
    0x06BE, 0x06BE, 0x06D2, 0x06D2, 0x06D3, 0x06D3, 0x06AD, 0x06AD, 0x06AD, 0x06AD,
    0x06C7, 0x06C7, 0x06C6, 0x06C6, 0x06C8, 0x06C8, 0x0677, 0x06CB, 0x06CB, 0x06C5,
    0x06C5, 0x06C9, 0x06C9, 0x06D0, 0x06D0, 0x06D0, 0x06D0, 0x0649, 0x0649, 0x0626,
    0x0627, 0x0626, 0x0627, 0x0626, 0x06D5, 0x0626, 0x06D5, 0x0626, 0x0648, 0x0626,
    0x0648, 0x0626, 0x06C7, 0x0626, 0x06C7, 0x0626, 0x06C6, 0x0626, 0x06C6, 0x0626,
    0x06C8, 0x0626, 0x06C8, 0x0626, 0x06D0, 0x0626, 0x06D0, 0x0626, 0x06D0, 0x0626,
    0x0649, 0x0626, 0x0649, 0x0626, 0x0649, 0x06CC, 0x06CC, 0x06CC, 0x06CC, 0x0626,
    0x062C, 0x0626, 0x062D, 0x0626, 0x0645, 0x0626, 0x0649, 0x0626, 0x064A, 0x0628,
    0x062C, 0x0628, 0x062D, 0x0628, 0x062E, 0x0628, 0x0645, 0x0628, 0x0649, 0x0628,
    0x064A, 0x062A, 0x062C, 0x062A, 0x062D, 0x062A, 0x062E, 0x062A, 0x0645, 0x062A,
    0x0649, 0x062A, 0x064A, 0x062B, 0x062C, 0x062B, 0x0645, 0x062B, 0x0649, 0x062B,
    0x064A, 0x062C, 0x062D, 0x062C, 0x0645, 0x062D, 0x062C, 0x062D, 0x0645, 0x062E,
    0x062C, 0x062E, 0x062D, 0x062E, 0x0645, 0x0633, 0x062C, 0x0633, 0x062D, 0x0633,
    0x062E, 0x0633, 0x0645, 0x0635, 0x062D, 0x0635, 0x0645, 0x0636, 0x062C, 0x0636,
    0x062D, 0x0636, 0x062E, 0x0636, 0x0645, 0x0637, 0x062D, 0x0637, 0x0645, 0x0638,
    0x0645, 0x0639, 0x062C, 0x0639, 0x0645, 0x063A, 0x062C, 0x063A, 0x0645, 0x0641,
    0x062C, 0x0641, 0x062D, 0x0641, 0x062E, 0x0641, 0x0645, 0x0641, 0x0649, 0x0641,
    0x064A, 0x0642, 0x062D, 0x0642, 0x0645, 0x0642, 0x0649, 0x0642, 0x064A, 0x0643,
    0x0627, 0x0643, 0x062C, 0x0643, 0x062D, 0x0643, 0x062E, 0x0643, 0x0644, 0x0643,
    0x0645, 0x0643, 0x0649, 0x0643, 0x064A, 0x0644, 0x062C, 0x0644, 0x062D, 0x0644,
    0x062E, 0x0644, 0x0645, 0x0644, 0x0649, 0x0644, 0x064A, 0x0645, 0x062C, 0x0645,
    0x062D, 0x0645, 0x062E, 0x0645, 0x0645, 0x0645, 0x0649, 0x0645, 0x064A, 0x0646,
    0x062C, 0x0646, 0x062D, 0x0646, 0x062E, 0x0646, 0x0645, 0x0646, 0x0649, 0x0646,
    0x064A, 0x0647, 0x062C, 0x0647, 0x0645, 0x0647, 0x0649, 0x0647, 0x064A, 0x064A,
    0x062C, 0x064A, 0x062D, 0x064A, 0x062E, 0x064A, 0x0645, 0x064A, 0x0649, 0x064A,
    0x064A, 0x0630, 0x0670, 0x0631, 0x0670, 0x0649, 0x0670, 0x0020, 0x064C, 0x0651,
    0x0020, 0x064D, 0x0651, 0x0020, 0x064E, 0x0651, 0x0020, 0x064F, 0x0651, 0x0020,
    0x0650, 0x0651, 0x0020, 0x0651, 0x0670, 0x0626, 0x0631, 0x0626, 0x0632, 0x0626,
    0x0645, 0x0626, 0x0646, 0x0626, 0x0649, 0x0626, 0x064A, 0x0628, 0x0631, 0x0628,
    0x0632, 0x0628, 0x0645, 0x0628, 0x0646, 0x0628, 0x0649, 0x0628, 0x064A, 0x062A,
    0x0631, 0x062A, 0x0632, 0x062A, 0x0645, 0x062A, 0x0646, 0x062A, 0x0649, 0x062A,
    0x064A, 0x062B, 0x0631, 0x062B, 0x0632, 0x062B, 0x0645, 0x062B, 0x0646, 0x062B,
    0x0649, 0x062B, 0x064A, 0x0641, 0x0649, 0x0641, 0x064A, 0x0642, 0x0649, 0x0642,
    0x064A, 0x0643, 0x0627, 0x0643, 0x0644, 0x0643, 0x0645, 0x0643, 0x0649, 0x0643,
    0x064A, 0x0644, 0x0645, 0x0644, 0x0649, 0x0644, 0x064A, 0x0645, 0x0627, 0x0645,
    0x0645, 0x0646, 0x0631, 0x0646, 0x0632, 0x0646, 0x0645, 0x0646, 0x0646, 0x0646,
    0x0649, 0x0646, 0x064A, 0x0649, 0x0670, 0x064A, 0x0631, 0x064A, 0x0632, 0x064A,
    0x0645, 0x064A, 0x0646, 0x064A, 0x0649, 0x064A, 0x064A, 0x0626, 0x062C, 0x0626,
    0x062D, 0x0626, 0x062E, 0x0626, 0x0645, 0x0626, 0x0647, 0x0628, 0x062C, 0x0628,
    0x062D, 0x0628, 0x062E, 0x0628, 0x0645, 0x0628, 0x0647, 0x062A, 0x062C, 0x062A,
    0x062D, 0x062A, 0x062E, 0x062A, 0x0645, 0x062A, 0x0647, 0x062B, 0x0645, 0x062C,
    0x062D, 0x062C, 0x0645, 0x062D, 0x062C, 0x062D, 0x0645, 0x062E, 0x062C, 0x062E,
    0x0645, 0x0633, 0x062C, 0x0633, 0x062D, 0x0633, 0x062E, 0x0633, 0x0645, 0x0635,
    0x062D, 0x0635, 0x062E, 0x0635, 0x0645, 0x0636, 0x062C, 0x0636, 0x062D, 0x0636,
    0x062E, 0x0636, 0x0645, 0x0637, 0x062D, 0x0638, 0x0645, 0x0639, 0x062C, 0x0639,
    0x0645, 0x063A, 0x062C, 0x063A, 0x0645, 0x0641, 0x062C, 0x0641, 0x062D, 0x0641,
    0x062E, 0x0641, 0x0645, 0x0642, 0x062D, 0x0642, 0x0645, 0x0643, 0x062C, 0x0643,
    0x062D, 0x0643, 0x062E, 0x0643, 0x0644, 0x0643, 0x0645, 0x0644, 0x062C, 0x0644,
    0x062D, 0x0644, 0x062E, 0x0644, 0x0645, 0x0644, 0x0647, 0x0645, 0x062C, 0x0645,
    0x062D, 0x0645, 0x062E, 0x0645, 0x0645, 0x0646, 0x062C, 0x0646, 0x062D, 0x0646,
    0x062E, 0x0646, 0x0645, 0x0646, 0x0647, 0x0647, 0x062C, 0x0647, 0x0645, 0x0647,
];

const COMPATIBILITY_POOL_3: [u32; 1000] = [
    0x0670, 0x064A, 0x062C, 0x064A, 0x062D, 0x064A, 0x062E, 0x064A, 0x0645, 0x064A,
    0x0647, 0x0626, 0x0645, 0x0626, 0x0647, 0x0628, 0x0645, 0x0628, 0x0647, 0x062A,
    0x0645, 0x062A, 0x0647, 0x062B, 0x0645, 0x062B, 0x0647, 0x0633, 0x0645, 0x0633,
    0x0647, 0x0634, 0x0645, 0x0634, 0x0647, 0x0643, 0x0644, 0x0643, 0x0645, 0x0644,
    0x0645, 0x0646, 0x0645, 0x0646, 0x0647, 0x064A, 0x0645, 0x064A, 0x0647, 0x0640,
    0x064E, 0x0651, 0x0640, 0x064F, 0x0651, 0x0640, 0x0650, 0x0651, 0x0637, 0x0649,
    0x0637, 0x064A, 0x0639, 0x0649, 0x0639, 0x064A, 0x063A, 0x0649, 0x063A, 0x064A,
    0x0633, 0x0649, 0x0633, 0x064A, 0x0634, 0x0649, 0x0634, 0x064A, 0x062D, 0x0649,
    0x062D, 0x064A, 0x062C, 0x0649, 0x062C, 0x064A, 0x062E, 0x0649, 0x062E, 0x064A,
    0x0635, 0x0649, 0x0635, 0x064A, 0x0636, 0x0649, 0x0636, 0x064A, 0x0634, 0x062C,
    0x0634, 0x062D, 0x0634, 0x062E, 0x0634, 0x0645, 0x0634, 0x0631, 0x0633, 0x0631,
    0x0635, 0x0631, 0x0636, 0x0631, 0x0637, 0x0649, 0x0637, 0x064A, 0x0639, 0x0649,
    0x0639, 0x064A, 0x063A, 0x0649, 0x063A, 0x064A, 0x0633, 0x0649, 0x0633, 0x064A,
    0x0634, 0x0649, 0x0634, 0x064A, 0x062D, 0x0649, 0x062D, 0x064A, 0x062C, 0x0649,
    0x062C, 0x064A, 0x062E, 0x0649, 0x062E, 0x064A, 0x0635, 0x0649, 0x0635, 0x064A,
    0x0636, 0x0649, 0x0636, 0x064A, 0x0634, 0x062C, 0x0634, 0x062D, 0x0634, 0x062E,
    0x0634, 0x0645, 0x0634, 0x0631, 0x0633, 0x0631, 0x0635, 0x0631, 0x0636, 0x0631,
    0x0634, 0x062C, 0x0634, 0x062D, 0x0634, 0x062E, 0x0634, 0x0645, 0x0633, 0x0647,
    0x0634, 0x0647, 0x0637, 0x0645, 0x0633, 0x062C, 0x0633, 0x062D, 0x0633, 0x062E,
    0x0634, 0x062C, 0x0634, 0x062D, 0x0634, 0x062E, 0x0637, 0x0645, 0x0638, 0x0645,
    0x0627, 0x064B, 0x0627, 0x064B, 0x062A, 0x062C, 0x0645, 0x062A, 0x062D, 0x062C,
    0x062A, 0x062D, 0x062C, 0x062A, 0x062D, 0x0645, 0x062A, 0x062E, 0x0645, 0x062A,
    0x0645, 0x062C, 0x062A, 0x0645, 0x062D, 0x062A, 0x0645, 0x062E, 0x062C, 0x0645,
    0x062D, 0x062C, 0x0645, 0x062D, 0x062D, 0x0645, 0x064A, 0x062D, 0x0645, 0x0649,
    0x0633, 0x062D, 0x062C, 0x0633, 0x062C, 0x062D, 0x0633, 0x062C, 0x0649, 0x0633,
    0x0645, 0x062D, 0x0633, 0x0645, 0x062D, 0x0633, 0x0645, 0x062C, 0x0633, 0x0645,
    0x0645, 0x0633, 0x0645, 0x0645, 0x0635, 0x062D, 0x062D, 0x0635, 0x062D, 0x062D,
    0x0635, 0x0645, 0x0645, 0x0634, 0x062D, 0x0645, 0x0634, 0x062D, 0x0645, 0x0634,
    0x062C, 0x064A, 0x0634, 0x0645, 0x062E, 0x0634, 0x0645, 0x062E, 0x0634, 0x0645,
    0x0645, 0x0634, 0x0645, 0x0645, 0x0636, 0x062D, 0x0649, 0x0636, 0x062E, 0x0645,
    0x0636, 0x062E, 0x0645, 0x0637, 0x0645, 0x062D, 0x0637, 0x0645, 0x062D, 0x0637,
    0x0645, 0x0645, 0x0637, 0x0645, 0x064A, 0x0639, 0x062C, 0x0645, 0x0639, 0x0645,
    0x0645, 0x0639, 0x0645, 0x0645, 0x0639, 0x0645, 0x0649, 0x063A, 0x0645, 0x0645,
    0x063A, 0x0645, 0x064A, 0x063A, 0x0645, 0x0649, 0x0641, 0x062E, 0x0645, 0x0641,
    0x062E, 0x0645, 0x0642, 0x0645, 0x062D, 0x0642, 0x0645, 0x0645, 0x0644, 0x062D,
    0x0645, 0x0644, 0x062D, 0x064A, 0x0644, 0x062D, 0x0649, 0x0644, 0x062C, 0x062C,
    0x0644, 0x062C, 0x062C, 0x0644, 0x062E, 0x0645, 0x0644, 0x062E, 0x0645, 0x0644,
    0x0645, 0x062D, 0x0644, 0x0645, 0x062D, 0x0645, 0x062D, 0x062C, 0x0645, 0x062D,
    0x0645, 0x0645, 0x062D, 0x064A, 0x0645, 0x062C, 0x062D, 0x0645, 0x062C, 0x0645,
    0x0645, 0x062E, 0x062C, 0x0645, 0x062E, 0x0645, 0x0645, 0x062C, 0x062E, 0x0647,
    0x0645, 0x062C, 0x0647, 0x0645, 0x0645, 0x0646, 0x062D, 0x0645, 0x0646, 0x062D,
    0x0649, 0x0646, 0x062C, 0x0645, 0x0646, 0x062C, 0x0645, 0x0646, 0x062C, 0x0649,
    0x0646, 0x0645, 0x064A, 0x0646, 0x0645, 0x0649, 0x064A, 0x0645, 0x0645, 0x064A,
    0x0645, 0x0645, 0x0628, 0x062E, 0x064A, 0x062A, 0x062C, 0x064A, 0x062A, 0x062C,
    0x0649, 0x062A, 0x062E, 0x064A, 0x062A, 0x062E, 0x0649, 0x062A, 0x0645, 0x064A,
    0x062A, 0x0645, 0x0649, 0x062C, 0x0645, 0x064A, 0x062C, 0x062D, 0x0649, 0x062C,
    0x0645, 0x0649, 0x0633, 0x062E, 0x0649, 0x0635, 0x062D, 0x064A, 0x0634, 0x062D,
    0x064A, 0x0636, 0x062D, 0x064A, 0x0644, 0x062C, 0x064A, 0x0644, 0x0645, 0x064A,
    0x064A, 0x062D, 0x064A, 0x064A, 0x062C, 0x064A, 0x064A, 0x0645, 0x064A, 0x0645,
    0x0645, 0x064A, 0x0642, 0x0645, 0x064A, 0x0646, 0x062D, 0x064A, 0x0642, 0x0645,
    0x062D, 0x0644, 0x062D, 0x0645, 0x0639, 0x0645, 0x064A, 0x0643, 0x0645, 0x064A,
    0x0646, 0x062C, 0x062D, 0x0645, 0x062E, 0x064A, 0x0644, 0x062C, 0x0645, 0x0643,
    0x0645, 0x0645, 0x0644, 0x062C, 0x0645, 0x0646, 0x062C, 0x062D, 0x062C, 0x062D,
    0x064A, 0x062D, 0x062C, 0x064A, 0x0645, 0x062C, 0x064A, 0x0641, 0x0645, 0x064A,
    0x0628, 0x062D, 0x064A, 0x0643, 0x0645, 0x0645, 0x0639, 0x062C, 0x0645, 0x0635,
    0x0645, 0x0645, 0x0633, 0x062E, 0x064A, 0x0646, 0x062C, 0x064A, 0x0635, 0x0644,
    0x06D2, 0x0642, 0x0644, 0x06D2, 0x0627, 0x0644, 0x0644, 0x0647, 0x0627, 0x0643,
    0x0628, 0x0631, 0x0645, 0x062D, 0x0645, 0x062F, 0x0635, 0x0644, 0x0639, 0x0645,
    0x0631, 0x0633, 0x0648, 0x0644, 0x0639, 0x0644, 0x064A, 0x0647, 0x0648, 0x0633,
    0x0644, 0x0645, 0x0635, 0x0644, 0x0649, 0x0635, 0x0644, 0x0649, 0x0020, 0x0627,
    0x0644, 0x0644, 0x0647, 0x0020, 0x0639, 0x0644, 0x064A, 0x0647, 0x0020, 0x0648,
    0x0633, 0x0644, 0x0645, 0x062C, 0x0644, 0x0020, 0x062C, 0x0644, 0x0627, 0x0644,
    0x0647, 0x0631, 0x06CC, 0x0627, 0x0644, 0x002C, 0x3001, 0x3002, 0x003A, 0x003B,
    0x0021, 0x003F, 0x3016, 0x3017, 0x2026, 0x2025, 0x2014, 0x2013, 0x005F, 0x005F,
    0x0028, 0x0029, 0x007B, 0x007D, 0x3014, 0x3015, 0x3010, 0x3011, 0x300A, 0x300B,
    0x3008, 0x3009, 0x300C, 0x300D, 0x300E, 0x300F, 0x005B, 0x005D, 0x203E, 0x203E,
    0x203E, 0x203E, 0x005F, 0x005F, 0x005F, 0x002C, 0x3001, 0x002E, 0x003B, 0x003A,
    0x003F, 0x0021, 0x2014, 0x0028, 0x0029, 0x007B, 0x007D, 0x3014, 0x3015, 0x0023,
    0x0026, 0x002A, 0x002B, 0x002D, 0x003C, 0x003E, 0x003D, 0x005C, 0x0024, 0x0025,
    0x0040, 0x0020, 0x064B, 0x0640, 0x064B, 0x0020, 0x064C, 0x0020, 0x064D, 0x0020,
    0x064E, 0x0640, 0x064E, 0x0020, 0x064F, 0x0640, 0x064F, 0x0020, 0x0650, 0x0640,
    0x0650, 0x0020, 0x0651, 0x0640, 0x0651, 0x0020, 0x0652, 0x0640, 0x0652, 0x0621,
    0x0622, 0x0622, 0x0623, 0x0623, 0x0624, 0x0624, 0x0625, 0x0625, 0x0626, 0x0626,
    0x0626, 0x0626, 0x0627, 0x0627, 0x0628, 0x0628, 0x0628, 0x0628, 0x0629, 0x0629,
    0x062A, 0x062A, 0x062A, 0x062A, 0x062B, 0x062B, 0x062B, 0x062B, 0x062C, 0x062C,
    0x062C, 0x062C, 0x062D, 0x062D, 0x062D, 0x062D, 0x062E, 0x062E, 0x062E, 0x062E,
    0x062F, 0x062F, 0x0630, 0x0630, 0x0631, 0x0631, 0x0632, 0x0632, 0x0633, 0x0633,
    0x0633, 0x0633, 0x0634, 0x0634, 0x0634, 0x0634, 0x0635, 0x0635, 0x0635, 0x0635,
    0x0636, 0x0636, 0x0636, 0x0636, 0x0637, 0x0637, 0x0637, 0x0637, 0x0638, 0x0638,
    0x0638, 0x0638, 0x0639, 0x0639, 0x0639, 0x0639, 0x063A, 0x063A, 0x063A, 0x063A,
    0x0641, 0x0641, 0x0641, 0x0641, 0x0642, 0x0642, 0x0642, 0x0642, 0x0643, 0x0643,
    0x0643, 0x0643, 0x0644, 0x0644, 0x0644, 0x0644, 0x0645, 0x0645, 0x0645, 0x0645,
    0x0646, 0x0646, 0x0646, 0x0646, 0x0647, 0x0647, 0x0647, 0x0647, 0x0648, 0x0648,
    0x0649, 0x0649, 0x064A, 0x064A, 0x064A, 0x064A, 0x0644, 0x0622, 0x0644, 0x0622,
    0x0644, 0x0623, 0x0644, 0x0623, 0x0644, 0x0625, 0x0644, 0x0625, 0x0644, 0x0627,
    0x0644, 0x0627, 0x0021, 0x0022, 0x0023, 0x0024, 0x0025, 0x0026, 0x0027, 0x0028,
    0x0029, 0x002A, 0x002B, 0x002C, 0x002D, 0x002E, 0x002F, 0x0030, 0x0031, 0x0032,
    0x0033, 0x0034, 0x0035, 0x0036, 0x0037, 0x0038, 0x0039, 0x003A, 0x003B, 0x003C,
    0x003D, 0x003E, 0x003F, 0x0040, 0x0041, 0x0042, 0x0043, 0x0044, 0x0045, 0x0046,
    0x0047, 0x0048, 0x0049, 0x004A, 0x004B, 0x004C, 0x004D, 0x004E, 0x004F, 0x0050,
    0x0051, 0x0052, 0x0053, 0x0054, 0x0055, 0x0056, 0x0057, 0x0058, 0x0059, 0x005A,
    0x005B, 0x005C, 0x005D, 0x005E, 0x005F, 0x0060, 0x0061, 0x0062, 0x0063, 0x0064,
    0x0065, 0x0066, 0x0067, 0x0068, 0x0069, 0x006A, 0x006B, 0x006C, 0x006D, 0x006E,
    0x006F, 0x0070, 0x0071, 0x0072, 0x0073, 0x0074, 0x0075, 0x0076, 0x0077, 0x0078,
    0x0079, 0x007A, 0x007B, 0x007C, 0x007D, 0x007E, 0x2985, 0x2986, 0x3002, 0x300C,
    0x300D, 0x3001, 0x30FB, 0x30F2, 0x30A1, 0x30A3, 0x30A5, 0x30A7, 0x30A9, 0x30E3,
    0x30E5, 0x30E7, 0x30C3, 0x30FC, 0x30A2, 0x30A4, 0x30A6, 0x30A8, 0x30AA, 0x30AB,
    0x30AD, 0x30AF, 0x30B1, 0x30B3, 0x30B5, 0x30B7, 0x30B9, 0x30BB, 0x30BD, 0x30BF,
    0x30C1, 0x30C4, 0x30C6, 0x30C8, 0x30CA, 0x30CB, 0x30CC, 0x30CD, 0x30CE, 0x30CF,
    0x30D2, 0x30D5, 0x30D8, 0x30DB, 0x30DE, 0x30DF, 0x30E0, 0x30E1, 0x30E2, 0x30E4,
];

const COMPATIBILITY_POOL_4: [u32; 1000] = [
    0x30E6, 0x30E8, 0x30E9, 0x30EA, 0x30EB, 0x30EC, 0x30ED, 0x30EF, 0x30F3, 0x3099,
    0x309A, 0x3164, 0x3131, 0x3132, 0x3133, 0x3134, 0x3135, 0x3136, 0x3137, 0x3138,
    0x3139, 0x313A, 0x313B, 0x313C, 0x313D, 0x313E, 0x313F, 0x3140, 0x3141, 0x3142,
    0x3143, 0x3144, 0x3145, 0x3146, 0x3147, 0x3148, 0x3149, 0x314A, 0x314B, 0x314C,
    0x314D, 0x314E, 0x314F, 0x3150, 0x3151, 0x3152, 0x3153, 0x3154, 0x3155, 0x3156,
    0x3157, 0x3158, 0x3159, 0x315A, 0x315B, 0x315C, 0x315D, 0x315E, 0x315F, 0x3160,
    0x3161, 0x3162, 0x3163, 0x00A2, 0x00A3, 0x00AC, 0x00AF, 0x00A6, 0x00A5, 0x20A9,
    0x2502, 0x2190, 0x2191, 0x2192, 0x2193, 0x25A0, 0x25CB, 0x02D0, 0x02D1, 0x00E6,
    0x0299, 0x0253, 0x02A3, 0xAB66, 0x02A5, 0x02A4, 0x0256, 0x0257, 0x1D91, 0x0258,
    0x025E, 0x02A9, 0x0264, 0x0262, 0x0260, 0x029B, 0x0127, 0x029C, 0x0267, 0x0284,
    0x02AA, 0x02AB, 0x026C, 0x1DF04, 0xA78E, 0x026E, 0x1DF05, 0x028E, 0x1DF06, 0x00F8,
    0x0276, 0x0277, 0x0071, 0x027A, 0x1DF08, 0x027D, 0x027E, 0x0280, 0x02A8, 0x02A6,
    0xAB67, 0x02A7, 0x0288, 0x2C71, 0x028F, 0x02A1, 0x02A2, 0x0298, 0x01C0, 0x01C1,
    0x01C2, 0x1DF0A, 0x1DF1E, 0x0041, 0x0042, 0x0043, 0x0044, 0x0045, 0x0046, 0x0047,
    0x0048, 0x0049, 0x004A, 0x004B, 0x004C, 0x004D, 0x004E, 0x004F, 0x0050, 0x0051,
    0x0052, 0x0053, 0x0054, 0x0055, 0x0056, 0x0057, 0x0058, 0x0059, 0x005A, 0x0061,
    0x0062, 0x0063, 0x0064, 0x0065, 0x0066, 0x0067, 0x0068, 0x0069, 0x006A, 0x006B,
    0x006C, 0x006D, 0x006E, 0x006F, 0x0070, 0x0071, 0x0072, 0x0073, 0x0074, 0x0075,
    0x0076, 0x0077, 0x0078, 0x0079, 0x007A, 0x0041, 0x0042, 0x0043, 0x0044, 0x0045,
    0x0046, 0x0047, 0x0048, 0x0049, 0x004A, 0x004B, 0x004C, 0x004D, 0x004E, 0x004F,
    0x0050, 0x0051, 0x0052, 0x0053, 0x0054, 0x0055, 0x0056, 0x0057, 0x0058, 0x0059,
    0x005A, 0x0061, 0x0062, 0x0063, 0x0064, 0x0065, 0x0066, 0x0067, 0x0069, 0x006A,
    0x006B, 0x006C, 0x006D, 0x006E, 0x006F, 0x0070, 0x0071, 0x0072, 0x0073, 0x0074,
    0x0075, 0x0076, 0x0077, 0x0078, 0x0079, 0x007A, 0x0041, 0x0042, 0x0043, 0x0044,
    0x0045, 0x0046, 0x0047, 0x0048, 0x0049, 0x004A, 0x004B, 0x004C, 0x004D, 0x004E,
    0x004F, 0x0050, 0x0051, 0x0052, 0x0053, 0x0054, 0x0055, 0x0056, 0x0057, 0x0058,
    0x0059, 0x005A, 0x0061, 0x0062, 0x0063, 0x0064, 0x0065, 0x0066, 0x0067, 0x0068,
    0x0069, 0x006A, 0x006B, 0x006C, 0x006D, 0x006E, 0x006F, 0x0070, 0x0071, 0x0072,
    0x0073, 0x0074, 0x0075, 0x0076, 0x0077, 0x0078, 0x0079, 0x007A, 0x0041, 0x0043,
    0x0044, 0x0047, 0x004A, 0x004B, 0x004E, 0x004F, 0x0050, 0x0051, 0x0053, 0x0054,
    0x0055, 0x0056, 0x0057, 0x0058, 0x0059, 0x005A, 0x0061, 0x0062, 0x0063, 0x0064,
    0x0066, 0x0068, 0x0069, 0x006A, 0x006B, 0x006C, 0x006D, 0x006E, 0x0070, 0x0071,
    0x0072, 0x0073, 0x0074, 0x0075, 0x0076, 0x0077, 0x0078, 0x0079, 0x007A, 0x0041,
    0x0042, 0x0043, 0x0044, 0x0045, 0x0046, 0x0047, 0x0048, 0x0049, 0x004A, 0x004B,
    0x004C, 0x004D, 0x004E, 0x004F, 0x0050, 0x0051, 0x0052, 0x0053, 0x0054, 0x0055,
    0x0056, 0x0057, 0x0058, 0x0059, 0x005A, 0x0061, 0x0062, 0x0063, 0x0064, 0x0065,
    0x0066, 0x0067, 0x0068, 0x0069, 0x006A, 0x006B, 0x006C, 0x006D, 0x006E, 0x006F,
    0x0070, 0x0071, 0x0072, 0x0073, 0x0074, 0x0075, 0x0076, 0x0077, 0x0078, 0x0079,
    0x007A, 0x0041, 0x0042, 0x0044, 0x0045, 0x0046, 0x0047, 0x004A, 0x004B, 0x004C,
    0x004D, 0x004E, 0x004F, 0x0050, 0x0051, 0x0053, 0x0054, 0x0055, 0x0056, 0x0057,
    0x0058, 0x0059, 0x0061, 0x0062, 0x0063, 0x0064, 0x0065, 0x0066, 0x0067, 0x0068,
    0x0069, 0x006A, 0x006B, 0x006C, 0x006D, 0x006E, 0x006F, 0x0070, 0x0071, 0x0072,
    0x0073, 0x0074, 0x0075, 0x0076, 0x0077, 0x0078, 0x0079, 0x007A, 0x0041, 0x0042,
    0x0044, 0x0045, 0x0046, 0x0047, 0x0049, 0x004A, 0x004B, 0x004C, 0x004D, 0x004F,
    0x0053, 0x0054, 0x0055, 0x0056, 0x0057, 0x0058, 0x0059, 0x0061, 0x0062, 0x0063,
    0x0064, 0x0065, 0x0066, 0x0067, 0x0068, 0x0069, 0x006A, 0x006B, 0x006C, 0x006D,
    0x006E, 0x006F, 0x0070, 0x0071, 0x0072, 0x0073, 0x0074, 0x0075, 0x0076, 0x0077,
    0x0078, 0x0079, 0x007A, 0x0041, 0x0042, 0x0043, 0x0044, 0x0045, 0x0046, 0x0047,
    0x0048, 0x0049, 0x004A, 0x004B, 0x004C, 0x004D, 0x004E, 0x004F, 0x0050, 0x0051,
    0x0052, 0x0053, 0x0054, 0x0055, 0x0056, 0x0057, 0x0058, 0x0059, 0x005A, 0x0061,
    0x0062, 0x0063, 0x0064, 0x0065, 0x0066, 0x0067, 0x0068, 0x0069, 0x006A, 0x006B,
    0x006C, 0x006D, 0x006E, 0x006F, 0x0070, 0x0071, 0x0072, 0x0073, 0x0074, 0x0075,
    0x0076, 0x0077, 0x0078, 0x0079, 0x007A, 0x0041, 0x0042, 0x0043, 0x0044, 0x0045,
    0x0046, 0x0047, 0x0048, 0x0049, 0x004A, 0x004B, 0x004C, 0x004D, 0x004E, 0x004F,
    0x0050, 0x0051, 0x0052, 0x0053, 0x0054, 0x0055, 0x0056, 0x0057, 0x0058, 0x0059,
    0x005A, 0x0061, 0x0062, 0x0063, 0x0064, 0x0065, 0x0066, 0x0067, 0x0068, 0x0069,
    0x006A, 0x006B, 0x006C, 0x006D, 0x006E, 0x006F, 0x0070, 0x0071, 0x0072, 0x0073,
    0x0074, 0x0075, 0x0076, 0x0077, 0x0078, 0x0079, 0x007A, 0x0041, 0x0042, 0x0043,
    0x0044, 0x0045, 0x0046, 0x0047, 0x0048, 0x0049, 0x004A, 0x004B, 0x004C, 0x004D,
    0x004E, 0x004F, 0x0050, 0x0051, 0x0052, 0x0053, 0x0054, 0x0055, 0x0056, 0x0057,
    0x0058, 0x0059, 0x005A, 0x0061, 0x0062, 0x0063, 0x0064, 0x0065, 0x0066, 0x0067,
    0x0068, 0x0069, 0x006A, 0x006B, 0x006C, 0x006D, 0x006E, 0x006F, 0x0070, 0x0071,
    0x0072, 0x0073, 0x0074, 0x0075, 0x0076, 0x0077, 0x0078, 0x0079, 0x007A, 0x0041,
    0x0042, 0x0043, 0x0044, 0x0045, 0x0046, 0x0047, 0x0048, 0x0049, 0x004A, 0x004B,
    0x004C, 0x004D, 0x004E, 0x004F, 0x0050, 0x0051, 0x0052, 0x0053, 0x0054, 0x0055,
    0x0056, 0x0057, 0x0058, 0x0059, 0x005A, 0x0061, 0x0062, 0x0063, 0x0064, 0x0065,
    0x0066, 0x0067, 0x0068, 0x0069, 0x006A, 0x006B, 0x006C, 0x006D, 0x006E, 0x006F,
    0x0070, 0x0071, 0x0072, 0x0073, 0x0074, 0x0075, 0x0076, 0x0077, 0x0078, 0x0079,
    0x007A, 0x0041, 0x0042, 0x0043, 0x0044, 0x0045, 0x0046, 0x0047, 0x0048, 0x0049,
    0x004A, 0x004B, 0x004C, 0x004D, 0x004E, 0x004F, 0x0050, 0x0051, 0x0052, 0x0053,
    0x0054, 0x0055, 0x0056, 0x0057, 0x0058, 0x0059, 0x005A, 0x0061, 0x0062, 0x0063,
    0x0064, 0x0065, 0x0066, 0x0067, 0x0068, 0x0069, 0x006A, 0x006B, 0x006C, 0x006D,
    0x006E, 0x006F, 0x0070, 0x0071, 0x0072, 0x0073, 0x0074, 0x0075, 0x0076, 0x0077,
    0x0078, 0x0079, 0x007A, 0x0041, 0x0042, 0x0043, 0x0044, 0x0045, 0x0046, 0x0047,
    0x0048, 0x0049, 0x004A, 0x004B, 0x004C, 0x004D, 0x004E, 0x004F, 0x0050, 0x0051,
    0x0052, 0x0053, 0x0054, 0x0055, 0x0056, 0x0057, 0x0058, 0x0059, 0x005A, 0x0061,
    0x0062, 0x0063, 0x0064, 0x0065, 0x0066, 0x0067, 0x0068, 0x0069, 0x006A, 0x006B,
    0x006C, 0x006D, 0x006E, 0x006F, 0x0070, 0x0071, 0x0072, 0x0073, 0x0074, 0x0075,
    0x0076, 0x0077, 0x0078, 0x0079, 0x007A, 0x0131, 0x0237, 0x0391, 0x0392, 0x0393,
    0x0394, 0x0395, 0x0396, 0x0397, 0x0398, 0x0399, 0x039A, 0x039B, 0x039C, 0x039D,
    0x039E, 0x039F, 0x03A0, 0x03A1, 0x03F4, 0x03A3, 0x03A4, 0x03A5, 0x03A6, 0x03A7,
    0x03A8, 0x03A9, 0x2207, 0x03B1, 0x03B2, 0x03B3, 0x03B4, 0x03B5, 0x03B6, 0x03B7,
    0x03B8, 0x03B9, 0x03BA, 0x03BB, 0x03BC, 0x03BD, 0x03BE, 0x03BF, 0x03C0, 0x03C1,
    0x03C2, 0x03C3, 0x03C4, 0x03C5, 0x03C6, 0x03C7, 0x03C8, 0x03C9, 0x2202, 0x03F5,
    0x03D1, 0x03F0, 0x03D5, 0x03F1, 0x03D6, 0x0391, 0x0392, 0x0393, 0x0394, 0x0395,
    0x0396, 0x0397, 0x0398, 0x0399, 0x039A, 0x039B, 0x039C, 0x039D, 0x039E, 0x039F,
    0x03A0, 0x03A1, 0x03F4, 0x03A3, 0x03A4, 0x03A5, 0x03A6, 0x03A7, 0x03A8, 0x03A9,
    0x2207, 0x03B1, 0x03B2, 0x03B3, 0x03B4, 0x03B5, 0x03B6, 0x03B7, 0x03B8, 0x03B9,
    0x03BA, 0x03BB, 0x03BC, 0x03BD, 0x03BE, 0x03BF, 0x03C0, 0x03C1, 0x03C2, 0x03C3,
    0x03C4, 0x03C5, 0x03C6, 0x03C7, 0x03C8, 0x03C9, 0x2202, 0x03F5, 0x03D1, 0x03F0,
    0x03D5, 0x03F1, 0x03D6, 0x0391, 0x0392, 0x0393, 0x0394, 0x0395, 0x0396, 0x0397,
    0x0398, 0x0399, 0x039A, 0x039B, 0x039C, 0x039D, 0x039E, 0x039F, 0x03A0, 0x03A1,
    0x03F4, 0x03A3, 0x03A4, 0x03A5, 0x03A6, 0x03A7, 0x03A8, 0x03A9, 0x2207, 0x03B1,
    0x03B2, 0x03B3, 0x03B4, 0x03B5, 0x03B6, 0x03B7, 0x03B8, 0x03B9, 0x03BA, 0x03BB,
    0x03BC, 0x03BD, 0x03BE, 0x03BF, 0x03C0, 0x03C1, 0x03C2, 0x03C3, 0x03C4, 0x03C5,
    0x03C6, 0x03C7, 0x03C8, 0x03C9, 0x2202, 0x03F5, 0x03D1, 0x03F0, 0x03D5, 0x03F1,
    0x03D6, 0x0391, 0x0392, 0x0393, 0x0394, 0x0395, 0x0396, 0x0397, 0x0398, 0x0399,
    0x039A, 0x039B, 0x039C, 0x039D, 0x039E, 0x039F, 0x03A0, 0x03A1, 0x03F4, 0x03A3,
    0x03A4, 0x03A5, 0x03A6, 0x03A7, 0x03A8, 0x03A9, 0x2207, 0x03B1, 0x03B2, 0x03B3,
    0x03B4, 0x03B5, 0x03B6, 0x03B7, 0x03B8, 0x03B9, 0x03BA, 0x03BB, 0x03BC, 0x03BD,
];

const COMPATIBILITY_POOL_5: [u32; 514] = [
    0x03BE, 0x03BF, 0x03C0, 0x03C1, 0x03C2, 0x03C3, 0x03C4, 0x03C5, 0x03C6, 0x03C7,
    0x03C8, 0x03C9, 0x2202, 0x03F5, 0x03D1, 0x03F0, 0x03D5, 0x03F1, 0x03D6, 0x0391,
    0x0392, 0x0393, 0x0394, 0x0395, 0x0396, 0x0397, 0x0398, 0x0399, 0x039A, 0x039B,
    0x039C, 0x039D, 0x039E, 0x039F, 0x03A0, 0x03A1, 0x03F4, 0x03A3, 0x03A4, 0x03A5,
    0x03A6, 0x03A7, 0x03A8, 0x03A9, 0x2207, 0x03B1, 0x03B2, 0x03B3, 0x03B4, 0x03B5,
    0x03B6, 0x03B7, 0x03B8, 0x03B9, 0x03BA, 0x03BB, 0x03BC, 0x03BD, 0x03BE, 0x03BF,
    0x03C0, 0x03C1, 0x03C2, 0x03C3, 0x03C4, 0x03C5, 0x03C6, 0x03C7, 0x03C8, 0x03C9,
    0x2202, 0x03F5, 0x03D1, 0x03F0, 0x03D5, 0x03F1, 0x03D6, 0x03DC, 0x03DD, 0x0030,
    0x0031, 0x0032, 0x0033, 0x0034, 0x0035, 0x0036, 0x0037, 0x0038, 0x0039, 0x0030,
    0x0031, 0x0032, 0x0033, 0x0034, 0x0035, 0x0036, 0x0037, 0x0038, 0x0039, 0x0030,
    0x0031, 0x0032, 0x0033, 0x0034, 0x0035, 0x0036, 0x0037, 0x0038, 0x0039, 0x0030,
    0x0031, 0x0032, 0x0033, 0x0034, 0x0035, 0x0036, 0x0037, 0x0038, 0x0039, 0x0030,
    0x0031, 0x0032, 0x0033, 0x0034, 0x0035, 0x0036, 0x0037, 0x0038, 0x0039, 0x0627,
    0x0628, 0x062C, 0x062F, 0x0648, 0x0632, 0x062D, 0x0637, 0x064A, 0x0643, 0x0644,
    0x0645, 0x0646, 0x0633, 0x0639, 0x0641, 0x0635, 0x0642, 0x0631, 0x0634, 0x062A,
    0x062B, 0x062E, 0x0630, 0x0636, 0x0638, 0x063A, 0x066E, 0x06BA, 0x06A1, 0x066F,
    0x0628, 0x062C, 0x0647, 0x062D, 0x064A, 0x0643, 0x0644, 0x0645, 0x0646, 0x0633,
    0x0639, 0x0641, 0x0635, 0x0642, 0x0634, 0x062A, 0x062B, 0x062E, 0x0636, 0x063A,
    0x062C, 0x062D, 0x064A, 0x0644, 0x0646, 0x0633, 0x0639, 0x0635, 0x0642, 0x0634,
    0x062E, 0x0636, 0x063A, 0x06BA, 0x066F, 0x0628, 0x062C, 0x0647, 0x062D, 0x0637,
    0x064A, 0x0643, 0x0645, 0x0646, 0x0633, 0x0639, 0x0641, 0x0635, 0x0642, 0x0634,
    0x062A, 0x062B, 0x062E, 0x0636, 0x0638, 0x063A, 0x066E, 0x06A1, 0x0627, 0x0628,
    0x062C, 0x062F, 0x0647, 0x0648, 0x0632, 0x062D, 0x0637, 0x064A, 0x0644, 0x0645,
    0x0646, 0x0633, 0x0639, 0x0641, 0x0635, 0x0642, 0x0631, 0x0634, 0x062A, 0x062B,
    0x062E, 0x0630, 0x0636, 0x0638, 0x063A, 0x0628, 0x062C, 0x062F, 0x0648, 0x0632,
    0x062D, 0x0637, 0x064A, 0x0644, 0x0645, 0x0646, 0x0633, 0x0639, 0x0641, 0x0635,
    0x0642, 0x0631, 0x0634, 0x062A, 0x062B, 0x062E, 0x0630, 0x0636, 0x0638, 0x063A,
    0x0030, 0x002E, 0x0030, 0x002C, 0x0031, 0x002C, 0x0032, 0x002C, 0x0033, 0x002C,
    0x0034, 0x002C, 0x0035, 0x002C, 0x0036, 0x002C, 0x0037, 0x002C, 0x0038, 0x002C,
    0x0039, 0x002C, 0x0028, 0x0041, 0x0029, 0x0028, 0x0042, 0x0029, 0x0028, 0x0043,
    0x0029, 0x0028, 0x0044, 0x0029, 0x0028, 0x0045, 0x0029, 0x0028, 0x0046, 0x0029,
    0x0028, 0x0047, 0x0029, 0x0028, 0x0048, 0x0029, 0x0028, 0x0049, 0x0029, 0x0028,
    0x004A, 0x0029, 0x0028, 0x004B, 0x0029, 0x0028, 0x004C, 0x0029, 0x0028, 0x004D,
    0x0029, 0x0028, 0x004E, 0x0029, 0x0028, 0x004F, 0x0029, 0x0028, 0x0050, 0x0029,
    0x0028, 0x0051, 0x0029, 0x0028, 0x0052, 0x0029, 0x0028, 0x0053, 0x0029, 0x0028,
    0x0054, 0x0029, 0x0028, 0x0055, 0x0029, 0x0028, 0x0056, 0x0029, 0x0028, 0x0057,
    0x0029, 0x0028, 0x0058, 0x0029, 0x0028, 0x0059, 0x0029, 0x0028, 0x005A, 0x0029,
    0x3014, 0x0053, 0x3015, 0x0043, 0x0052, 0x0043, 0x0044, 0x0057, 0x005A, 0x0041,
    0x0042, 0x0043, 0x0044, 0x0045, 0x0046, 0x0047, 0x0048, 0x0049, 0x004A, 0x004B,
    0x004C, 0x004D, 0x004E, 0x004F, 0x0050, 0x0051, 0x0052, 0x0053, 0x0054, 0x0055,
    0x0056, 0x0057, 0x0058, 0x0059, 0x005A, 0x0048, 0x0056, 0x004D, 0x0056, 0x0053,
    0x0044, 0x0053, 0x0053, 0x0050, 0x0050, 0x0056, 0x0057, 0x0043, 0x004D, 0x0043,
    0x004D, 0x0044, 0x004D, 0x0052, 0x0044, 0x004A, 0x307B, 0x304B, 0x30B3, 0x30B3,
    0x30B5, 0x624B, 0x5B57, 0x53CC, 0x30C7, 0x4E8C, 0x591A, 0x89E3, 0x5929, 0x4EA4,
    0x6620, 0x7121, 0x6599, 0x524D, 0x5F8C, 0x518D, 0x65B0, 0x521D, 0x7D42, 0x751F,
    0x8CA9, 0x58F0, 0x5439, 0x6F14, 0x6295, 0x6355, 0x4E00, 0x4E09, 0x904A, 0x5DE6,
    0x4E2D, 0x53F3, 0x6307, 0x8D70, 0x6253, 0x7981, 0x7A7A, 0x5408, 0x6E80, 0x6709,
    0x6708, 0x7533, 0x5272, 0x55B6, 0x914D, 0x3014, 0x672C, 0x3015, 0x3014, 0x4E09,
    0x3015, 0x3014, 0x4E8C, 0x3015, 0x3014, 0x5B89, 0x3015, 0x3014, 0x70B9, 0x3015,
    0x3014, 0x6253, 0x3015, 0x3014, 0x76D7, 0x3015, 0x3014, 0x52DD, 0x3015, 0x3014,
    0x6557, 0x3015, 0x5F97, 0x53EF, 0x0030, 0x0031, 0x0032, 0x0033, 0x0034, 0x0035,
    0x0036, 0x0037, 0x0038, 0x0039,
];

/// The compatibility decompositions, one after another.
pub closed spec fn compatibility_pool_data() -> Seq<u32> {
    Seq::empty() + COMPATIBILITY_POOL_0@ + COMPATIBILITY_POOL_1@ + COMPATIBILITY_POOL_2@ + COMPATIBILITY_POOL_3@ + COMPATIBILITY_POOL_4@ + COMPATIBILITY_POOL_5@
}

/// The entries of `compatibility_pool_data`, in one vector.
pub fn compatibility_pool() -> (r: Vec<u32>)
    ensures
        r@ == compatibility_pool_data(),
{
    let mut v: Vec<u32> = Vec::new();
    push_all(&mut v, &COMPATIBILITY_POOL_0);
    push_all(&mut v, &COMPATIBILITY_POOL_1);
    push_all(&mut v, &COMPATIBILITY_POOL_2);
    push_all(&mut v, &COMPATIBILITY_POOL_3);
    push_all(&mut v, &COMPATIBILITY_POOL_4);
    push_all(&mut v, &COMPATIBILITY_POOL_5);
    v
}

} // verus!
