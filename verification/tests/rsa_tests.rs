use crypto::rsa::Keypair;
use crypto::rsa::PublicKey;

const KEY1: [u8; 1218] = [
    48, 130, 4, 190, 2, 1, 0, 48, 13, 6, 9, 42, 134, 72, 134, 247,
    13, 1, 1, 1, 5, 0, 4, 130, 4, 168, 48, 130, 4, 164, 2, 1,
    0, 2, 130, 1, 1, 0, 205, 144, 203, 167, 48, 53, 2, 187, 70, 108,
    19, 211, 205, 241, 177, 141, 231, 194, 69, 8, 114, 248, 184, 234, 82, 196,
    160, 101, 254, 50, 253, 146, 153, 163, 16, 22, 70, 173, 25, 48, 237, 84,
    154, 81, 157, 248, 44, 4, 85, 226, 168, 168, 15, 63, 91, 76, 228, 93,
    182, 188, 178, 141, 165, 254, 139, 150, 250, 13, 150, 207, 159, 100, 230, 123,
    78, 229, 135, 14, 172, 105, 69, 170, 193, 31, 168, 195, 160, 246, 215, 176,
    9, 231, 200, 199, 27, 253, 214, 164, 148, 184, 132, 127, 10, 38, 231, 160,
    139, 133, 207, 212, 3, 36, 50, 94, 195, 33, 39, 229, 250, 133, 183, 235,
    24, 176, 68, 190, 211, 143, 110, 180, 7, 170, 122, 99, 61, 67, 253, 216,
    232, 194, 104, 49, 206, 174, 51, 3, 244, 241, 101, 135, 40, 219, 29, 161,
    72, 240, 222, 197, 149, 63, 91, 140, 152, 226, 125, 106, 67, 99, 236, 96,
    217, 121, 69, 48, 211, 188, 155, 78, 53, 194, 161, 189, 205, 70, 205, 56,
    106, 204, 149, 42, 126, 80, 6, 17, 91, 214, 255, 190, 251, 55, 59, 128,
    199, 86, 156, 41, 64, 97, 76, 131, 164, 152, 93, 155, 64, 101, 128, 245,
    214, 4, 127, 142, 70, 80, 134, 9, 41, 57, 112, 233, 71, 104, 119, 178,
    178, 82, 43, 153, 146, 219, 140, 193, 86, 2, 1, 87, 246, 159, 232, 182,
    30, 122, 14, 10, 31, 227, 2, 3, 1, 0, 1, 2, 130, 1, 0, 71,
    169, 62, 253, 153, 22, 25, 206, 44, 102, 23, 225, 97, 237, 108, 78, 194,
    104, 220, 132, 238, 3, 155, 254, 255, 252, 144, 200, 13, 126, 60, 28, 163,
    151, 143, 79, 156, 178, 210, 81, 214, 162, 132, 43, 136, 172, 207, 183, 113,
    51, 83, 69, 71, 15, 120, 166, 13, 4, 72, 100, 110, 192, 103, 138, 29,
    162, 115, 168, 82, 23, 46, 3, 80, 63, 211, 72, 187, 180, 215, 80, 217,
    155, 5, 185, 34, 45, 148, 139, 8, 180, 211, 55, 44, 172, 144, 171, 4,
    109, 26, 117, 90, 167, 40, 228, 88, 34, 5, 17, 144, 90, 97, 255, 247,
    217, 70, 31, 228, 87, 77, 102, 217, 47, 73, 75, 133, 163, 154, 127, 73,
    111, 252, 198, 232, 68, 130, 58, 62, 214, 225, 180, 165, 122, 109, 41, 167,
    52, 203, 190, 113, 243, 15, 139, 142, 135, 245, 27, 186, 219, 68, 42, 149,
    82, 103, 84, 82, 114, 138, 135, 213, 45, 45, 44, 149, 127, 177, 81, 189,
    154, 207, 197, 13, 225, 232, 112, 223, 56, 93, 86, 159, 200, 148, 7, 138,
    54, 124, 253, 143, 107, 250, 201, 218, 227, 174, 251, 66, 35, 248, 215, 0,
    66, 78, 116, 0, 246, 200, 77, 71, 159, 29, 30, 235, 225, 166, 200, 69,
    121, 146, 73, 130, 182, 163, 13, 158, 35, 188, 120, 51, 39, 26, 108, 133,
    233, 87, 180, 119, 156, 205, 185, 115, 179, 60, 86, 191, 55, 80, 117, 2,
    129, 129, 0, 238, 184, 23, 4, 55, 251, 71, 217, 82, 135, 26, 161, 186,
    107, 163, 128, 89, 31, 72, 113, 46, 106, 150, 138, 224, 3, 196, 139, 154,
    22, 216, 60, 199, 110, 77, 89, 198, 146, 64, 164, 117, 184, 215, 26, 13,
    26, 49, 97, 202, 174, 78, 241, 136, 210, 164, 78, 107, 22, 97, 75, 157,
    211, 228, 232, 29, 231, 141, 33, 66, 174, 239, 78, 107, 134, 33, 134, 207,
    230, 9, 39, 36, 225, 159, 94, 159, 217, 105, 63, 239, 25, 108, 34, 241,
    119, 131, 97, 233, 199, 1, 39, 198, 199, 197, 100, 196, 141, 115, 233, 116,
    92, 220, 66, 227, 22, 155, 5, 36, 210, 233, 78, 137, 169, 105, 9, 186,
    91, 82, 61, 2, 129, 129, 0, 220, 114, 79, 62, 189, 79, 187, 168, 18,
    179, 252, 27, 162, 103, 212, 146, 181, 245, 109, 26, 200, 146, 115, 82, 247,
    226, 148, 55, 26, 106, 161, 252, 26, 35, 116, 15, 143, 113, 50, 143, 221,
    245, 3, 96, 163, 229, 116, 223, 158, 186, 41, 151, 22, 18, 169, 16, 174,
    23, 41, 108, 5, 178, 12, 15, 219, 243, 5, 219, 25, 3, 34, 192, 203,
    237, 143, 187, 131, 220, 242, 40, 148, 13, 22, 232, 213, 187, 175, 142, 218,
    215, 125, 230, 23, 214, 229, 62, 73, 173, 127, 227, 147, 215, 145, 55, 146,
    122, 114, 112, 241, 211, 106, 191, 46, 186, 250, 7, 201, 221, 152, 244, 84,
    97, 83, 18, 239, 182, 252, 159, 2, 129, 128, 64, 250, 141, 17, 81, 231,
    173, 60, 3, 145, 208, 246, 250, 214, 119, 207, 228, 242, 117, 246, 144, 234,
    228, 133, 114, 202, 179, 194, 72, 52, 53, 177, 253, 155, 17, 165, 1, 63,
    40, 39, 91, 255, 239, 85, 33, 1, 227, 53, 58, 69, 78, 41, 194, 211,
    139, 115, 233, 4, 83, 129, 144, 185, 111, 210, 154, 233, 63, 106, 49, 75,
    138, 202, 46, 204, 120, 237, 200, 67, 86, 116, 120, 62, 141, 241, 228, 210,
    250, 42, 51, 252, 24, 138, 62, 110, 8, 174, 43, 67, 71, 22, 59, 174,
    127, 21, 153, 198, 227, 41, 69, 202, 77, 14, 75, 224, 8, 92, 83, 20,
    177, 250, 245, 207, 206, 78, 158, 146, 99, 5, 2, 129, 129, 0, 152, 139,
    41, 54, 250, 253, 63, 151, 208, 73, 103, 189, 31, 166, 197, 188, 55, 217,
    123, 4, 59, 162, 203, 214, 175, 221, 196, 62, 85, 51, 80, 160, 8, 222,
    91, 163, 160, 216, 237, 234, 11, 231, 77, 205, 3, 220, 246, 0, 255, 239,
    70, 116, 92, 59, 209, 109, 207, 106, 11, 169, 202, 79, 40, 117, 152, 248,
    20, 39, 70, 169, 154, 212, 218, 200, 170, 219, 81, 38, 5, 19, 251, 79,
    11, 121, 86, 221, 39, 96, 173, 34, 204, 229, 249, 189, 36, 168, 243, 134,
    241, 166, 99, 89, 154, 13, 96, 121, 6, 212, 13, 35, 5, 13, 2, 163,
    51, 253, 75, 188, 225, 232, 192, 179, 16, 47, 92, 93, 189, 117, 2, 129,
    129, 0, 131, 183, 59, 229, 67, 213, 168, 138, 210, 90, 10, 81, 112, 206,
    229, 21, 12, 174, 114, 208, 159, 174, 113, 47, 71, 250, 140, 49, 59, 203,
    254, 148, 203, 47, 52, 192, 156, 98, 65, 167, 161, 87, 204, 6, 181, 34,
    46, 120, 162, 153, 215, 192, 176, 162, 64, 68, 41, 173, 49, 99, 74, 51,
    2, 38, 44, 163, 170, 142, 95, 142, 1, 96, 172, 177, 83, 77, 207, 198,
    224, 6, 16, 196, 229, 191, 40, 23, 142, 147, 200, 37, 168, 145, 80, 118,
    139, 29, 190, 168, 98, 204, 223, 50, 171, 85, 57, 119, 207, 48, 223, 107,
    215, 26, 134, 234, 211, 209, 118, 168, 210, 105, 53, 215, 222, 96, 178, 190,
    32, 138,
];

const KEY2: [u8; 1792] = [
    48, 130, 6, 252, 2, 1, 0, 48, 13, 6, 9, 42, 134, 72, 134, 247,
    13, 1, 1, 1, 5, 0, 4, 130, 6, 230, 48, 130, 6, 226, 2, 1,
    0, 2, 130, 1, 129, 0, 195, 173, 85, 184, 23, 148, 147, 183, 12, 11,
    109, 15, 247, 41, 22, 28, 83, 211, 144, 163, 26, 21, 73, 62, 198, 133,
    175, 61, 154, 209, 43, 56, 148, 63, 100, 251, 240, 204, 207, 152, 214, 225,
    173, 231, 162, 122, 113, 172, 101, 78, 34, 205, 248, 192, 203, 85, 246, 163,
    78, 192, 30, 190, 62, 46, 90, 100, 254, 184, 90, 166, 89, 154, 144, 32,
    170, 23, 57, 1, 206, 94, 148, 72, 92, 130, 64, 95, 220, 34, 124, 14,
    46, 76, 240, 197, 19, 113, 116, 55, 174, 151, 247, 172, 70, 213, 32, 26,
    110, 191, 86, 216, 191, 229, 134, 7, 45, 100, 31, 34, 175, 172, 2, 227,
    29, 202, 7, 77, 140, 9, 187, 227, 31, 193, 38, 220, 188, 124, 147, 82,
    186, 155, 11, 212, 217, 53, 29, 84, 230, 213, 220, 38, 115, 168, 166, 180,
    134, 142, 248, 4, 58, 24, 101, 230, 206, 106, 18, 198, 90, 77, 162, 233,
    176, 235, 200, 112, 153, 46, 74, 102, 227, 71, 224, 127, 110, 148, 162, 191,
    43, 18, 232, 179, 42, 48, 148, 11, 191, 50, 7, 17, 90, 48, 221, 178,
    101, 79, 93, 227, 70, 88, 25, 188, 210, 143, 135, 240, 101, 43, 148, 119,
    237, 231, 167, 29, 100, 101, 169, 104, 133, 87, 161, 87, 107, 76, 77, 128,
    53, 59, 191, 231, 86, 164, 107, 202, 177, 93, 213, 59, 34, 117, 112, 130,
    251, 142, 146, 32, 232, 122, 194, 30, 183, 107, 64, 146, 30, 184, 168, 41,
    110, 210, 59, 8, 3, 126, 159, 214, 13, 186, 59, 62, 199, 128, 190, 109,
    59, 32, 11, 2, 129, 44, 200, 242, 33, 173, 84, 234, 218, 118, 123, 236,
    212, 92, 92, 254, 175, 228, 189, 184, 245, 56, 137, 82, 232, 167, 236, 70,
    7, 114, 158, 184, 237, 76, 130, 133, 217, 199, 169, 160, 49, 87, 21, 78,
    140, 146, 183, 27, 151, 162, 128, 217, 38, 216, 13, 11, 146, 109, 239, 127,
    215, 159, 159, 31, 56, 235, 75, 45, 153, 199, 132, 28, 239, 174, 7, 47,
    64, 98, 44, 82, 244, 96, 83, 45, 121, 174, 180, 84, 228, 46, 127, 27,
    104, 99, 17, 96, 219, 253, 2, 3, 1, 0, 1, 2, 130, 1, 128, 26,
    24, 209, 128, 90, 96, 189, 236, 161, 70, 26, 215, 16, 195, 33, 136, 72,
    163, 196, 60, 4, 124, 7, 71, 64, 137, 206, 203, 220, 12, 126, 131, 174,
    189, 223, 181, 124, 49, 140, 148, 89, 64, 67, 5, 204, 21, 33, 120, 249,
    15, 217, 51, 120, 52, 26, 74, 78, 57, 12, 133, 49, 244, 116, 109, 145,
    47, 188, 11, 17, 71, 243, 86, 90, 87, 136, 231, 204, 250, 17, 48, 106,
    253, 85, 157, 39, 129, 193, 101, 181, 254, 220, 44, 245, 197, 138, 232, 204,
    51, 170, 236, 232, 162, 200, 213, 158, 208, 247, 169, 60, 39, 111, 60, 104,
    202, 39, 67, 29, 165, 238, 32, 246, 71, 157, 14, 247, 55, 95, 240, 98,
    103, 17, 178, 156, 128, 191, 0, 172, 83, 81, 192, 224, 236, 147, 197, 114,
    50, 131, 16, 205, 170, 49, 45, 178, 130, 12, 26, 32, 56, 204, 24, 185,
    234, 116, 232, 15, 181, 245, 144, 58, 36, 137, 172, 128, 144, 135, 213, 117,
    37, 208, 181, 34, 219, 75, 255, 181, 206, 226, 43, 68, 238, 180, 55, 7,
    38, 241, 102, 140, 81, 185, 53, 198, 167, 26, 158, 168, 77, 66, 43, 174,
    16, 51, 126, 181, 139, 74, 74, 37, 224, 100, 192, 42, 197, 27, 124, 25,
    21, 189, 117, 199, 82, 101, 57, 101, 15, 195, 186, 175, 12, 33, 213, 165,
    204, 149, 102, 14, 116, 175, 241, 169, 98, 139, 182, 108, 241, 231, 170, 23,
    52, 234, 3, 41, 199, 35, 246, 199, 183, 102, 90, 144, 79, 100, 239, 209,
    94, 213, 124, 192, 224, 52, 85, 58, 117, 214, 39, 110, 50, 152, 122, 63,
    71, 210, 107, 41, 187, 230, 50, 31, 56, 235, 51, 201, 172, 39, 177, 182,
    174, 214, 21, 204, 236, 70, 96, 246, 169, 230, 108, 185, 108, 237, 15, 45,
    92, 122, 17, 15, 81, 81, 46, 146, 225, 133, 97, 183, 66, 50, 39, 23,
    232, 66, 14, 187, 95, 35, 112, 176, 60, 205, 50, 42, 210, 145, 253, 88,
    71, 114, 16, 162, 39, 83, 198, 155, 94, 194, 155, 165, 66, 157, 233, 87,
    176, 89, 222, 188, 19, 138, 76, 153, 161, 43, 251, 249, 73, 104, 191, 2,
    129, 193, 0, 255, 104, 147, 170, 57, 185, 212, 77, 150, 52, 234, 243, 199,
    152, 63, 120, 230, 92, 147, 188, 133, 180, 55, 117, 69, 84, 37, 178, 137,
    246, 175, 76, 230, 159, 6, 206, 180, 254, 207, 156, 25, 146, 12, 251, 51,
    116, 108, 213, 56, 172, 37, 92, 79, 79, 33, 0, 81, 234, 10, 167, 91,
    194, 88, 130, 14, 35, 211, 185, 138, 27, 181, 88, 213, 49, 14, 218, 232,
    116, 51, 172, 133, 233, 46, 184, 77, 112, 252, 153, 129, 77, 180, 136, 197,
    189, 77, 202, 82, 28, 81, 206, 7, 41, 254, 73, 20, 175, 41, 184, 174,
    155, 67, 86, 12, 216, 3, 238, 171, 127, 2, 119, 45, 70, 128, 167, 74,
    221, 141, 43, 194, 99, 39, 16, 105, 136, 40, 8, 252, 249, 68, 163, 109,
    71, 187, 250, 139, 68, 57, 156, 148, 74, 124, 76, 173, 74, 153, 227, 226,
    133, 84, 76, 200, 88, 43, 58, 28, 45, 142, 33, 143, 17, 243, 172, 131,
    142, 247, 159, 125, 6, 235, 239, 137, 1, 250, 25, 173, 148, 114, 18, 255,
    237, 90, 251, 2, 129, 193, 0, 196, 33, 88, 99, 2, 62, 145, 101, 252,
    52, 217, 25, 142, 181, 174, 239, 2, 134, 134, 59, 186, 238, 96, 154, 126,
    146, 110, 148, 223, 155, 106, 152, 34, 238, 202, 220, 125, 175, 249, 201, 0,
    145, 70, 2, 223, 102, 138, 205, 112, 61, 19, 39, 218, 27, 23, 49, 190,
    205, 71, 10, 244, 117, 167, 76, 222, 92, 106, 74, 12, 249, 34, 191, 17,
    3, 121, 43, 153, 57, 58, 127, 221, 18, 179, 179, 134, 196, 64, 191, 210,
    104, 48, 50, 2, 39, 104, 162, 243, 109, 167, 153, 181, 111, 52, 93, 161,
    66, 214, 152, 149, 152, 210, 90, 222, 36, 174, 20, 192, 51, 35, 82, 248,
    14, 151, 214, 54, 121, 201, 2, 52, 89, 124, 53, 65, 57, 161, 122, 156,
    198, 99, 31, 96, 112, 243, 173, 223, 184, 206, 130, 45, 98, 8, 225, 185,
    199, 198, 146, 123, 146, 158, 200, 61, 108, 208, 249, 189, 72, 194, 33, 132,
    47, 117, 157, 71, 177, 191, 250, 218, 224, 6, 49, 236, 196, 240, 155, 208,
    51, 131, 190, 171, 127, 243, 103, 2, 129, 192, 97, 250, 135, 51, 53, 35,
    225, 154, 197, 245, 148, 240, 97, 240, 56, 225, 51, 85, 238, 98, 210, 211,
    216, 182, 135, 27, 9, 191, 29, 7, 226, 37, 217, 14, 198, 120, 195, 156,
    64, 158, 124, 124, 183, 184, 33, 252, 22, 200, 17, 14, 144, 226, 129, 150,
    52, 109, 191, 254, 205, 137, 120, 60, 236, 225, 47, 117, 117, 2, 103, 69,
    203, 226, 193, 30, 41, 185, 182, 148, 229, 65, 216, 185, 36, 112, 21, 93,
    51, 185, 219, 141, 168, 165, 19, 94, 84, 154, 57, 183, 157, 118, 48, 239,
    94, 26, 64, 242, 21, 74, 64, 201, 85, 34, 140, 152, 205, 161, 96, 110,
    191, 206, 98, 50, 250, 165, 178, 165, 157, 67, 93, 53, 214, 69, 136, 134,
    111, 253, 74, 182, 129, 43, 68, 127, 209, 80, 2, 222, 240, 78, 237, 224,
    73, 32, 205, 21, 162, 69, 118, 159, 121, 64, 95, 86, 219, 118, 86, 90,
    239, 124, 86, 59, 39, 196, 85, 79, 162, 20, 175, 204, 216, 243, 178, 22,
    109, 16, 46, 179, 148, 179, 79, 52, 137, 195, 2, 129, 192, 111, 61, 134,
    119, 41, 135, 185, 74, 1, 225, 43, 157, 142, 78, 199, 248, 114, 19, 64,
    193, 82, 5, 240, 46, 208, 73, 87, 133, 2, 202, 144, 139, 215, 140, 94,
    236, 238, 48, 200, 88, 212, 4, 145, 148, 1, 135, 148, 132, 110, 251, 133,
    8, 222, 112, 237, 23, 222, 227, 105, 62, 242, 102, 100, 204, 121, 118, 43,
    38, 242, 242, 191, 93, 101, 85, 245, 252, 223, 124, 17, 13, 2, 163, 159,
    222, 220, 58, 37, 139, 102, 216, 135, 53, 101, 249, 90, 36, 202, 50, 208,
    147, 162, 207, 127, 0, 247, 253, 3, 224, 41, 65, 51, 86, 44, 150, 219,
    81, 147, 173, 173, 132, 90, 131, 84, 101, 64, 34, 148, 250, 182, 28, 103,
    17, 129, 124, 33, 117, 124, 196, 28, 230, 103, 249, 200, 140, 62, 206, 255,
    249, 223, 169, 177, 229, 237, 76, 60, 249, 74, 51, 95, 241, 172, 189, 50,
    77, 227, 169, 7, 202, 160, 193, 150, 80, 237, 160, 8, 134, 76, 108, 49,
    183, 81, 86, 102, 45, 201, 201, 222, 24, 96, 7, 67, 83, 2, 129, 192,
    6, 60, 183, 82, 140, 156, 48, 132, 237, 174, 161, 129, 61, 182, 49, 183,
    50, 197, 214, 229, 164, 17, 44, 64, 200, 83, 121, 104, 67, 43, 231, 213,
    152, 209, 141, 99, 123, 0, 215, 95, 221, 223, 221, 125, 48, 129, 207, 149,
    62, 168, 88, 34, 248, 184, 165, 72, 38, 73, 107, 117, 93, 139, 32, 120,
    96, 135, 33, 196, 33, 132, 15, 249, 31, 65, 242, 121, 125, 165, 225, 22,
    22, 234, 146, 69, 218, 60, 134, 23, 22, 47, 160, 19, 209, 114, 19, 6,
    251, 11, 125, 224, 15, 226, 199, 142, 50, 120, 12, 245, 19, 176, 120, 59,
    29, 113, 32, 177, 123, 211, 223, 51, 33, 173, 62, 50, 48, 96, 119, 38,
    184, 85, 128, 196, 11, 240, 31, 29, 134, 72, 177, 149, 92, 38, 213, 18,
    90, 78, 1, 240, 227, 9, 18, 242, 22, 199, 237, 207, 127, 247, 212, 201,
    64, 104, 62, 53, 165, 172, 244, 178, 57, 220, 61, 107, 227, 76, 95, 221,
    83, 33, 109, 143, 36, 94, 238, 156, 110, 225, 34, 39, 204, 97, 17, 214,
];

const KEY3: [u8; 2374] = [
    48, 130, 9, 66, 2, 1, 0, 48, 13, 6, 9, 42, 134, 72, 134, 247,
    13, 1, 1, 1, 5, 0, 4, 130, 9, 44, 48, 130, 9, 40, 2, 1,
    0, 2, 130, 2, 1, 0, 204, 136, 162, 221, 243, 16, 231, 163, 3, 58,
    102, 54, 119, 98, 97, 181, 167, 124, 52, 110, 73, 165, 202, 212, 193, 141,
    66, 204, 220, 86, 101, 236, 167, 213, 204, 244, 62, 55, 231, 198, 68, 248,
    196, 255, 187, 94, 11, 15, 78, 94, 167, 210, 71, 41, 36, 199, 118, 22,
    185, 165, 43, 76, 148, 111, 52, 163, 39, 92, 49, 154, 172, 222, 69, 180,
    25, 180, 132, 221, 58, 37, 219, 246, 53, 67, 216, 85, 91, 255, 201, 158,
    144, 200, 216, 69, 52, 143, 248, 209, 211, 129, 249, 232, 157, 155, 97, 66,
    180, 249, 139, 227, 156, 189, 192, 18, 127, 247, 248, 163, 145, 162, 79, 82,
    127, 250, 238, 89, 15, 208, 57, 139, 240, 42, 177, 76, 243, 172, 27, 23,
    216, 116, 164, 215, 198, 175, 163, 166, 60, 234, 200, 23, 190, 151, 153, 41,
    169, 192, 68, 227, 194, 222, 20, 90, 236, 67, 80, 134, 15, 189, 233, 10,
    121, 21, 134, 229, 31, 48, 236, 63, 154, 27, 212, 140, 33, 126, 37, 42,
    154, 192, 193, 226, 130, 240, 96, 186, 214, 88, 210, 173, 79, 52, 161, 248,
    235, 134, 69, 78, 114, 159, 63, 116, 128, 70, 40, 238, 43, 30, 154, 96,
    203, 164, 55, 226, 26, 43, 119, 159, 224, 157, 210, 147, 9, 33, 4, 63,
    123, 223, 71, 202, 236, 43, 69, 144, 205, 15, 104, 175, 89, 98, 80, 142,
    108, 125, 107, 184, 152, 39, 213, 202, 1, 188, 110, 174, 77, 77, 210, 208,
    192, 48, 148, 82, 110, 218, 121, 27, 239, 44, 195, 199, 27, 119, 216, 126,
    35, 43, 151, 210, 255, 207, 63, 147, 125, 28, 200, 57, 236, 150, 95, 124,
    11, 106, 223, 72, 71, 184, 20, 195, 210, 170, 62, 251, 48, 73, 164, 136,
    148, 31, 216, 168, 186, 29, 39, 151, 244, 182, 184, 63, 58, 195, 252, 98,
    48, 61, 174, 107, 98, 66, 99, 183, 230, 163, 117, 222, 88, 16, 164, 219,
    95, 223, 250, 106, 154, 60, 198, 236, 181, 109, 156, 147, 117, 176, 113, 123,
    6, 126, 176, 211, 78, 215, 182, 158, 28, 169, 190, 251, 133, 68, 64, 90,
    60, 77, 123, 72, 95, 176, 0, 101, 138, 255, 59, 237, 236, 217, 138, 8,
    110, 244, 242, 164, 125, 131, 22, 180, 57, 210, 133, 79, 84, 100, 125, 101,
    64, 30, 140, 98, 141, 201, 85, 209, 14, 160, 59, 145, 117, 40, 100, 137,
    34, 170, 195, 175, 78, 161, 46, 228, 182, 213, 254, 125, 54, 118, 205, 243,
    218, 125, 233, 242, 63, 55, 144, 135, 148, 123, 149, 152, 125, 87, 138, 195,
    150, 4, 107, 61, 243, 142, 82, 142, 77, 160, 160, 41, 144, 192, 145, 171,
    47, 213, 45, 84, 199, 123, 208, 75, 16, 6, 77, 227, 29, 191, 132, 30,
    170, 63, 215, 147, 178, 172, 22, 2, 189, 122, 242, 100, 254, 179, 230, 22,
    156, 89, 150, 138, 115, 201, 2, 3, 1, 0, 1, 2, 130, 2, 0, 19,
    78, 23, 63, 71, 60, 178, 124, 92, 166, 227, 180, 98, 222, 206, 149, 168,
    126, 12, 237, 214, 246, 54, 215, 143, 128, 63, 140, 154, 4, 110, 160, 224,
    115, 137, 225, 136, 200, 218, 143, 200, 125, 73, 140, 208, 184, 206, 230, 238,
    48, 249, 122, 155, 188, 90, 172, 23, 237, 139, 174, 183, 16, 70, 151, 91,
    122, 197, 209, 138, 30, 13, 16, 122, 184, 69, 207, 215, 213, 144, 178, 55,
    153, 124, 204, 15, 76, 121, 63, 66, 158, 188, 144, 52, 119, 141, 191, 68,
    15, 59, 253, 49, 227, 30, 147, 38, 162, 54, 246, 49, 217, 181, 54, 228,
    188, 234, 70, 179, 185, 110, 154, 201, 13, 98, 166, 130, 222, 53, 163, 163,
    246, 221, 31, 142, 118, 18, 174, 205, 44, 218, 65, 162, 56, 122, 152, 163,
    227, 226, 46, 143, 221, 203, 223, 191, 181, 98, 192, 18, 208, 131, 153, 86,
    7, 1, 243, 85, 147, 157, 195, 65, 78, 123, 128, 200, 103, 114, 98, 249,
    253, 131, 212, 122, 34, 146, 219, 182, 242, 215, 65, 247, 218, 227, 28, 128,
    168, 201, 231, 254, 212, 156, 91, 253, 168, 194, 196, 60, 224, 235, 105, 52,
    2, 81, 68, 46, 3, 82, 223, 19, 215, 172, 136, 238, 188, 96, 215, 118,
    246, 72, 107, 101, 15, 123, 70, 90, 66, 10, 181, 87, 175, 163, 204, 110,
    199, 188, 207, 38, 68, 156, 181, 110, 160, 142, 197, 100, 200, 58, 214, 38,
    100, 237, 91, 138, 201, 174, 84, 137, 116, 225, 11, 66, 92, 84, 166, 81,
    176, 182, 117, 247, 59, 179, 62, 163, 106, 241, 248, 176, 42, 59, 192, 133,
    48, 25, 166, 130, 90, 248, 63, 202, 78, 22, 153, 148, 223, 65, 2, 27,
    63, 68, 210, 165, 36, 40, 98, 133, 39, 203, 20, 24, 202, 214, 245, 160,
    72, 157, 156, 57, 1, 164, 197, 180, 62, 139, 122, 155, 85, 157, 174, 91,
    255, 33, 55, 252, 243, 170, 174, 96, 140, 132, 251, 39, 129, 160, 191, 53,
    244, 204, 114, 33, 241, 30, 172, 3, 111, 254, 152, 87, 64, 132, 160, 17,
    94, 2, 200, 167, 241, 137, 255, 97, 160, 10, 153, 129, 235, 232, 238, 228,
    39, 17, 244, 78, 48, 109, 139, 114, 67, 153, 95, 110, 179, 11, 230, 5,
    133, 130, 61, 10, 130, 94, 168, 186, 155, 82, 4, 208, 196, 112, 88, 76,
    104, 77, 144, 234, 21, 14, 125, 53, 146, 131, 58, 41, 186, 123, 18, 121,
    190, 218, 86, 40, 57, 15, 98, 248, 204, 227, 56, 24, 222, 75, 0, 74,
    81, 198, 32, 51, 252, 120, 18, 87, 182, 86, 158, 67, 52, 255, 96, 45,
    114, 46, 232, 109, 209, 172, 144, 214, 183, 226, 114, 178, 234, 176, 2, 5,
    242, 68, 170, 3, 242, 15, 176, 181, 151, 198, 222, 144, 34, 119, 178, 65,
    176, 101, 220, 108, 155, 157, 153, 113, 3, 162, 119, 133, 168, 120, 193, 2,
    130, 1, 1, 0, 245, 239, 129, 127, 138, 237, 176, 91, 44, 201, 154, 245,
    123, 219, 16, 138, 136, 73, 42, 50, 25, 104, 24, 3, 81, 92, 222, 248,
    1, 99, 131, 185, 46, 23, 44, 138, 102, 252, 128, 165, 168, 179, 217, 111,
    40, 226, 202, 163, 155, 21, 244, 17, 0, 219, 239, 134, 54, 108, 190, 145,
    238, 67, 179, 188, 73, 243, 84, 142, 230, 110, 222, 4, 141, 144, 68, 180,
    192, 22, 164, 184, 54, 211, 226, 243, 56, 207, 50, 100, 213, 115, 109, 82,
    160, 185, 191, 244, 241, 40, 176, 1, 224, 191, 45, 215, 211, 130, 154, 154,
    231, 138, 245, 135, 181, 81, 134, 208, 61, 33, 197, 200, 11, 43, 218, 174,
    82, 45, 97, 150, 123, 89, 141, 187, 14, 232, 194, 167, 246, 154, 140, 67,
    128, 195, 249, 192, 218, 248, 249, 10, 10, 82, 147, 147, 250, 12, 6, 157,
    151, 153, 39, 79, 20, 166, 180, 117, 239, 172, 181, 110, 216, 71, 186, 103,
    153, 235, 214, 31, 212, 8, 50, 196, 81, 51, 50, 71, 145, 189, 26, 111,
    219, 217, 94, 158, 253, 28, 247, 96, 101, 1, 128, 108, 96, 135, 105, 141,
    233, 115, 95, 52, 237, 220, 50, 164, 42, 242, 84, 158, 102, 45, 134, 21,
    167, 194, 4, 31, 9, 180, 10, 96, 130, 1, 254, 91, 204, 184, 147, 49,
    73, 74, 191, 183, 197, 239, 30, 247, 2, 207, 43, 182, 144, 82, 53, 134,
    203, 188, 220, 169, 2, 130, 1, 1, 0, 212, 231, 100, 117, 138, 81, 207,
    27, 187, 128, 5, 157, 242, 218, 129, 190, 10, 255, 144, 28, 186, 97, 100,
    226, 25, 116, 127, 67, 108, 25, 247, 18, 191, 230, 73, 242, 18, 182, 64,
    161, 72, 97, 138, 231, 55, 174, 87, 159, 32, 109, 33, 35, 189, 147, 163,
    91, 90, 186, 52, 227, 232, 216, 101, 168, 208, 142, 37, 185, 49, 4, 44,
    249, 126, 248, 128, 179, 211, 9, 215, 170, 83, 17, 183, 57, 84, 193, 155,
    36, 83, 78, 68, 61, 100, 234, 80, 243, 30, 247, 64, 3, 223, 9, 172,
    106, 232, 251, 46, 189, 64, 156, 239, 121, 221, 228, 2, 40, 165, 193, 53,
    119, 208, 216, 106, 26, 140, 230, 70, 6, 133, 46, 212, 217, 37, 172, 201,
    112, 143, 230, 53, 65, 123, 223, 90, 18, 7, 27, 206, 12, 222, 181, 144,
    49, 96, 3, 127, 244, 242, 159, 200, 88, 36, 123, 43, 49, 176, 30, 180,
    207, 8, 227, 144, 80, 242, 66, 125, 171, 128, 209, 166, 25, 10, 130, 221,
    116, 238, 79, 196, 84, 29, 243, 205, 38, 216, 129, 189, 117, 209, 188, 210,
    124, 82, 177, 50, 178, 149, 207, 165, 82, 0, 201, 100, 9, 132, 20, 71,
    128, 235, 162, 93, 118, 1, 145, 155, 130, 133, 106, 159, 10, 152, 177, 89,
    12, 134, 184, 64, 136, 29, 114, 63, 148, 159, 194, 6, 150, 32, 70, 8,
    233, 150, 231, 156, 113, 45, 241, 50, 33, 2, 130, 1, 0, 73, 151, 184,
    221, 140, 154, 33, 170, 182, 213, 65, 60, 114, 42, 148, 97, 143, 244, 172,
    222, 191, 1, 138, 37, 252, 3, 217, 104, 199, 41, 155, 50, 31, 155, 169,
    165, 100, 185, 236, 89, 38, 9, 99, 104, 67, 8, 210, 112, 112, 168, 250,
    22, 216, 117, 247, 207, 230, 155, 85, 207, 95, 71, 253, 17, 187, 227, 71,
    139, 87, 99, 23, 166, 175, 33, 219, 157, 102, 217, 159, 194, 204, 13, 77,
    157, 80, 131, 151, 229, 218, 133, 166, 210, 17, 236, 99, 135, 141, 94, 138,
    132, 149, 87, 64, 5, 148, 114, 65, 135, 87, 0, 27, 6, 215, 248, 36,
    106, 77, 208, 188, 89, 103, 22, 97, 98, 198, 142, 115, 228, 78, 214, 246,
    117, 98, 57, 190, 125, 250, 106, 54, 204, 192, 76, 100, 129, 20, 69, 106,
    104, 89, 188, 106, 18, 222, 193, 24, 125, 177, 238, 143, 119, 183, 139, 70,
    246, 255, 152, 99, 214, 94, 123, 224, 72, 190, 35, 119, 56, 160, 255, 47,
    9, 213, 238, 134, 254, 41, 155, 55, 188, 255, 65, 165, 113, 215, 246, 2,
    4, 99, 85, 54, 179, 183, 146, 237, 192, 28, 122, 124, 163, 223, 5, 132,
    85, 225, 208, 16, 8, 50, 53, 47, 41, 109, 192, 189, 240, 247, 187, 91,
    91, 147, 171, 187, 12, 135, 79, 56, 36, 136, 117, 8, 183, 154, 80, 58,
    168, 217, 187, 90, 174, 79, 179, 121, 246, 243, 34, 121, 185, 2, 130, 1,
    1, 0, 210, 247, 187, 175, 81, 114, 1, 133, 92, 133, 222, 139, 6, 52,
    9, 174, 116, 157, 139, 131, 60, 24, 248, 107, 167, 135, 173, 247, 244, 109,
    194, 75, 189, 6, 136, 173, 172, 103, 22, 161, 250, 228, 85, 77, 10, 250,
    226, 110, 151, 38, 44, 89, 139, 40, 122, 14, 51, 88, 34, 194, 216, 95,
    94, 85, 42, 220, 64, 123, 67, 27, 253, 40, 249, 237, 107, 51, 69, 227,
    17, 231, 0, 75, 164, 192, 213, 192, 199, 103, 246, 120, 174, 220, 27, 92,
    168, 252, 80, 233, 246, 112, 31, 154, 41, 85, 3, 42, 171, 196, 242, 250,
    207, 190, 117, 230, 211, 80, 205, 247, 39, 113, 99, 236, 159, 47, 82, 1,
    120, 208, 75, 54, 253, 201, 115, 48, 197, 167, 153, 160, 39, 147, 141, 24,
    228, 218, 202, 90, 126, 18, 120, 185, 119, 121, 197, 199, 146, 10, 250, 68,
    228, 180, 154, 233, 198, 2, 133, 159, 215, 208, 243, 224, 243, 135, 146, 151,
    218, 137, 144, 171, 174, 40, 80, 39, 31, 37, 24, 100, 200, 138, 5, 232,
    41, 152, 221, 159, 170, 74, 206, 155, 138, 3, 145, 185, 111, 32, 81, 157,
    34, 23, 161, 25, 238, 220, 19, 26, 57, 68, 129, 186, 49, 92, 150, 239,
    95, 38, 181, 231, 210, 83, 32, 189, 84, 29, 58, 125, 231, 204, 57, 73,
    149, 193, 67, 145, 115, 15, 94, 73, 167, 217, 56, 36, 167, 251, 234, 231,
    127, 161, 2, 130, 1, 0, 70, 93, 120, 18, 127, 195, 135, 163, 194, 145,
    33, 63, 193, 154, 3, 131, 170, 72, 126, 43, 165, 25, 10, 133, 105, 122,
    27, 224, 81, 96, 219, 28, 113, 178, 97, 239, 67, 124, 44, 53, 146, 169,
    216, 4, 143, 139, 245, 212, 7, 180, 110, 76, 149, 71, 228, 65, 215, 6,
    115, 131, 3, 96, 128, 128, 72, 179, 100, 56, 159, 143, 93, 43, 143, 66,
    182, 202, 90, 5, 31, 24, 176, 192, 145, 243, 102, 148, 84, 70, 46, 214,
    241, 158, 190, 45, 49, 185, 192, 4, 53, 56, 55, 0, 79, 191, 80, 226,
    215, 181, 42, 35, 0, 70, 54, 208, 135, 99, 99, 159, 230, 177, 241, 62,
    33, 49, 107, 104, 146, 166, 228, 208, 240, 190, 146, 106, 203, 176, 131, 180,
    235, 123, 189, 142, 137, 194, 144, 190, 137, 168, 27, 35, 96, 111, 110, 37,
    98, 187, 80, 105, 199, 1, 219, 147, 144, 118, 139, 219, 201, 245, 250, 206,
    65, 28, 137, 137, 164, 92, 136, 46, 38, 249, 249, 118, 43, 206, 1, 120,
    201, 153, 121, 231, 1, 7, 185, 148, 119, 12, 110, 59, 229, 160, 17, 76,
    218, 120, 158, 77, 173, 70, 195, 143, 45, 2, 235, 186, 92, 128, 3, 139,
    73, 123, 31, 137, 30, 109, 114, 107, 97, 70, 202, 168, 22, 249, 117, 42,
    254, 196, 238, 47, 249, 179, 215, 5, 12, 201, 46, 103, 250, 4, 159, 25,
    21, 255, 77, 80, 125, 89,
];


fn keys() -> [&'static [u8]; 3] {
    [&KEY1, &KEY2, &KEY3]
}

#[test]
fn rsa_from_pkcs8() {
    assert!(Keypair::from_pkcs8(&KEY1).is_ok());
    assert!(Keypair::from_pkcs8(&KEY2).is_ok());
    assert!(Keypair::from_pkcs8(&KEY3).is_ok());
}

#[test]
fn rsa_x509_encode_decode() {
    for _ in 0..10 {
        for key in keys() {
            let kp = Keypair::from_pkcs8(key).unwrap();
            let pk = kp.public();
            let pk2 = PublicKey::decode_x509(&pk.encode_x509()).unwrap();
            assert!(pk2 == pk);
        }
    }
}

#[test]
fn rsa_sign_verify() {
    for key in keys() {
        let kp = Keypair::from_pkcs8(key).unwrap();
        let msg = b"some message to be signed";
        let sig = kp.secret().sign(msg).unwrap();
        assert!(kp.public().verify(msg, &sig));
        assert!(!kp.public().verify(b"some other message", &sig));
        let mut bad = sig.clone();
        bad[100] = bad[100].wrapping_add(1);
        assert!(!kp.public().verify(msg, &bad));
    }
}

#[test]
fn test_decode_encode() {
    for _ in 0..10 {
        let kp = Keypair::generate().unwrap();
        let serialized = kp.to_bytes();
        let new_kp = Keypair::from_pkcs8(&serialized).unwrap();
        assert!(new_kp.public() == kp.public());
    }
}

#[test]
fn rsa_x509_exact_bytes() {
    let expected: [u8; 23] = [
        0x30, 0x15, 0x30, 0x0D, 0x06, 0x09, 0x2A, 0x86, 0x48, 0x86, 0xF7, 0x0D, 0x01, 0x01,
        0x01, 0x05, 0x00, 0x03, 0x04, 0x00, 0x01, 0x02, 0x03,
    ];
    let pk = PublicKey::decode_x509(&expected).unwrap();
    assert_eq!(pk.encode_pkcs1(), vec![1u8, 2, 3]);
    assert_eq!(pk.encode_x509(), expected.to_vec());
}

#[test]
fn rsa_x509_decode_errors() {
    let good: [u8; 23] = [
        0x30, 0x15, 0x30, 0x0D, 0x06, 0x09, 0x2A, 0x86, 0x48, 0x86, 0xF7, 0x0D, 0x01, 0x01,
        0x01, 0x05, 0x00, 0x03, 0x04, 0x00, 0x01, 0x02, 0x03,
    ];
    assert!(PublicKey::decode_x509(&good).is_ok());

    let mut wrong_outer = good;
    wrong_outer[0] = 0x31;
    assert!(matches!(
        PublicKey::decode_x509(&wrong_outer),
        Err(crypto::DecodingError::UnexpectedTag)
    ));

    let mut wrong_oid = good;
    wrong_oid[6] = 0x2B;
    assert!(matches!(
        PublicKey::decode_x509(&wrong_oid),
        Err(crypto::DecodingError::UnexpectedOid)
    ));

    let mut nonzero_unused = good;
    nonzero_unused[19] = 1;
    assert!(matches!(
        PublicKey::decode_x509(&nonzero_unused),
        Err(crypto::DecodingError::UnusedBits)
    ));

    let mut wrong_bits_tag = good;
    wrong_bits_tag[17] = 0x04;
    assert!(matches!(
        PublicKey::decode_x509(&wrong_bits_tag),
        Err(crypto::DecodingError::UnexpectedTag)
    ));

    assert!(PublicKey::decode_x509(&good[..20]).is_err());
    assert!(PublicKey::decode_x509(&[]).is_err());
}
