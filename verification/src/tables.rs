//! The built-in dictionaries: for each language a list of words in
//! increasing code-point order, each with its frequency rank (rank 0 is the
//! most frequent word).

use vstd::prelude::*;

use crate::layout::Lang;

verus! {

/// Number of built-in English words.
pub const EN_COUNT: usize = 242;

/// Number of built-in Russian words.
pub const RU_COUNT: usize = 153;

/// Number of built-in words of `lang`.
pub open spec fn dict_size(lang: Lang) -> int {
    match lang {
        Lang::En => EN_COUNT as int,
        Lang::Ru => RU_COUNT as int,
    }
}

#[verifier::opaque]
pub open spec fn en_word(i: int) -> Seq<char> {
    if i < 0 {
        Seq::empty()
    }
    else if i == 0 {
        "a"@
    }
    else if i == 1 {
        "able"@
    }
    else if i == 2 {
        "about"@
    }
    else if i == 3 {
        "after"@
    }
    else if i == 4 {
        "ago"@
    }
    else if i == 5 {
        "all"@
    }
    else if i == 6 {
        "also"@
    }
    else if i == 7 {
        "an"@
    }
    else if i == 8 {
        "and"@
    }
    else if i == 9 {
        "any"@
    }
    else if i == 10 {
        "anything"@
    }
    else if i == 11 {
        "are"@
    }
    else if i == 12 {
        "around"@
    }
    else if i == 13 {
        "as"@
    }
    else if i == 14 {
        "at"@
    }
    else if i == 15 {
        "back"@
    }
    else if i == 16 {
        "bad"@
    }
    else if i == 17 {
        "be"@
    }
    else if i == 18 {
        "because"@
    }
    else if i == 19 {
        "been"@
    }
    else if i == 20 {
        "big"@
    }
    else if i == 21 {
        "body"@
    }
    else if i == 22 {
        "book"@
    }
    else if i == 23 {
        "both"@
    }
    else if i == 24 {
        "business"@
    }
    else if i == 25 {
        "but"@
    }
    else if i == 26 {
        "by"@
    }
    else if i == 27 {
        "can"@
    }
    else if i == 28 {
        "car"@
    }
    else if i == 29 {
        "case"@
    }
    else if i == 30 {
        "city"@
    }
    else if i == 31 {
        "come"@
    }
    else if i == 32 {
        "community"@
    }
    else if i == 33 {
        "company"@
    }
    else if i == 34 {
        "could"@
    }
    else if i == 35 {
        "create"@
    }
    else if i == 36 {
        "day"@
    }
    else if i == 37 {
        "did"@
    }
    else if i == 38 {
        "different"@
    }
    else if i == 39 {
        "do"@
    }
    else if i == 40 {
        "down"@
    }
    else if i == 41 {
        "each"@
    }
    else if i == 42 {
        "early"@
    }
    else if i == 43 {
        "end"@
    }
    else if i == 44 {
        "even"@
    }
    else if i == 45 {
        "eye"@
    }
    else if i == 46 {
        "face"@
    }
    else if i == 47 {
        "fact"@
    }
    else if i == 48 {
        "family"@
    }
    else if i == 49 {
        "few"@
    }
    else if i == 50 {
        "first"@
    }
    else if i == 51 {
        "follow"@
    }
    else if i == 52 {
        "for"@
    }
    else if i == 53 {
        "friend"@
    }
    else if i == 54 {
        "from"@
    }
    else if i == 55 {
        "game"@
    }
    else if i == 56 {
        "get"@
    }
    else if i == 57 {
        "give"@
    }
    else if i == 58 {
        "go"@
    }
    else if i == 59 {
        "good"@
    }
    else if i == 60 {
        "government"@
    }
    else if i == 61 {
        "great"@
    }
    else if i == 62 {
        "had"@
    }
    else if i == 63 {
        "hand"@
    }
    else if i == 64 {
        "has"@
    }
    else if i == 65 {
        "have"@
    }
    else if i == 66 {
        "he"@
    }
    else if i == 67 {
        "head"@
    }
    else if i == 68 {
        "held"@
    }
    else if i == 69 {
        "hell"@
    }
    else if i == 70 {
        "hello"@
    }
    else if i == 71 {
        "help"@
    }
    else if i == 72 {
        "her"@
    }
    else if i == 73 {
        "here"@
    }
    else if i == 74 {
        "high"@
    }
    else if i == 75 {
        "him"@
    }
    else if i == 76 {
        "his"@
    }
    else if i == 77 {
        "home"@
    }
    else if i == 78 {
        "hour"@
    }
    else if i == 79 {
        "house"@
    }
    else if i == 80 {
        "how"@
    }
    else if i == 81 {
        "i"@
    }
    else if i == 82 {
        "idea"@
    }
    else if i == 83 {
        "if"@
    }
    else if i == 84 {
        "important"@
    }
    else if i == 85 {
        "in"@
    }
    else if i == 86 {
        "information"@
    }
    else if i == 87 {
        "into"@
    }
    else if i == 88 {
        "is"@
    }
    else if i == 89 {
        "issue"@
    }
    else if i == 90 {
        "it"@
    }
    else if i == 91 {
        "its"@
    }
    else if i == 92 {
        "job"@
    }
    else if i == 93 {
        "just"@
    }
    else if i == 94 {
        "keyboard"@
    }
    else if i == 95 {
        "kid"@
    }
    else if i == 96 {
        "kind"@
    }
    else if i == 97 {
        "know"@
    }
    else if i == 98 {
        "language"@
    }
    else if i == 99 {
        "large"@
    }
    else if i == 100 {
        "last"@
    }
    else if i == 101 {
        "law"@
    }
    else if i == 102 {
        "layout"@
    }
    else if i == 103 {
        "lead"@
    }
    else if i == 104 {
        "letter"@
    }
    else if i == 105 {
        "life"@
    }
    else if i == 106 {
        "like"@
    }
    else if i == 107 {
        "line"@
    }
    else if i == 108 {
        "little"@
    }
    else if i == 109 {
        "long"@
    }
    else if i == 110 {
        "look"@
    }
    else if i == 111 {
        "lot"@
    }
    else if i == 112 {
        "made"@
    }
    else if i == 113 {
        "make"@
    }
    else if i == 114 {
        "me"@
    }
    else if i == 115 {
        "member"@
    }
    else if i == 116 {
        "minute"@
    }
    else if i == 117 {
        "money"@
    }
    else if i == 118 {
        "month"@
    }
    else if i == 119 {
        "most"@
    }
    else if i == 120 {
        "much"@
    }
    else if i == 121 {
        "my"@
    }
    else if i == 122 {
        "name"@
    }
    else if i == 123 {
        "new"@
    }
    else if i == 124 {
        "next"@
    }
    else if i == 125 {
        "night"@
    }
    else if i == 126 {
        "no"@
    }
    else if i == 127 {
        "not"@
    }
    else if i == 128 {
        "nothing"@
    }
    else if i == 129 {
        "now"@
    }
    else if i == 130 {
        "number"@
    }
    else if i == 131 {
        "of"@
    }
    else if i == 132 {
        "old"@
    }
    else if i == 133 {
        "on"@
    }
    else if i == 134 {
        "one"@
    }
    else if i == 135 {
        "only"@
    }
    else if i == 136 {
        "or"@
    }
    else if i == 137 {
        "other"@
    }
    else if i == 138 {
        "our"@
    }
    else if i == 139 {
        "out"@
    }
    else if i == 140 {
        "over"@
    }
    else if i == 141 {
        "own"@
    }
    else if i == 142 {
        "parent"@
    }
    else if i == 143 {
        "part"@
    }
    else if i == 144 {
        "people"@
    }
    else if i == 145 {
        "place"@
    }
    else if i == 146 {
        "point"@
    }
    else if i == 147 {
        "power"@
    }
    else if i == 148 {
        "president"@
    }
    else if i == 149 {
        "problem"@
    }
    else if i == 150 {
        "program"@
    }
    else if i == 151 {
        "public"@
    }
    else if i == 152 {
        "question"@
    }
    else if i == 153 {
        "right"@
    }
    else if i == 154 {
        "said"@
    }
    else if i == 155 {
        "same"@
    }
    else if i == 156 {
        "say"@
    }
    else if i == 157 {
        "school"@
    }
    else if i == 158 {
        "see"@
    }
    else if i == 159 {
        "she"@
    }
    else if i == 160 {
        "should"@
    }
    else if i == 161 {
        "side"@
    }
    else if i == 162 {
        "small"@
    }
    else if i == 163 {
        "so"@
    }
    else if i == 164 {
        "social"@
    }
    else if i == 165 {
        "some"@
    }
    else if i == 166 {
        "stop"@
    }
    else if i == 167 {
        "story"@
    }
    else if i == 168 {
        "study"@
    }
    else if i == 169 {
        "such"@
    }
    else if i == 170 {
        "switch"@
    }
    else if i == 171 {
        "system"@
    }
    else if i == 172 {
        "take"@
    }
    else if i == 173 {
        "team"@
    }
    else if i == 174 {
        "text"@
    }
    else if i == 175 {
        "than"@
    }
    else if i == 176 {
        "thank"@
    }
    else if i == 177 {
        "that"@
    }
    else if i == 178 {
        "the"@
    }
    else if i == 179 {
        "their"@
    }
    else if i == 180 {
        "them"@
    }
    else if i == 181 {
        "then"@
    }
    else if i == 182 {
        "theory"@
    }
    else if i == 183 {
        "there"@
    }
    else if i == 184 {
        "therefore"@
    }
    else if i == 185 {
        "these"@
    }
    else if i == 186 {
        "they"@
    }
    else if i == 187 {
        "thick"@
    }
    else if i == 188 {
        "thin"@
    }
    else if i == 189 {
        "thing"@
    }
    else if i == 190 {
        "think"@
    }
    else if i == 191 {
        "third"@
    }
    else if i == 192 {
        "this"@
    }
    else if i == 193 {
        "those"@
    }
    else if i == 194 {
        "though"@
    }
    else if i == 195 {
        "thought"@
    }
    else if i == 196 {
        "thousand"@
    }
    else if i == 197 {
        "threat"@
    }
    else if i == 198 {
        "three"@
    }
    else if i == 199 {
        "through"@
    }
    else if i == 200 {
        "throw"@
    }
    else if i == 201 {
        "time"@
    }
    else if i == 202 {
        "to"@
    }
    else if i == 203 {
        "together"@
    }
    else if i == 204 {
        "two"@
    }
    else if i == 205 {
        "type"@
    }
    else if i == 206 {
        "understand"@
    }
    else if i == 207 {
        "up"@
    }
    else if i == 208 {
        "us"@
    }
    else if i == 209 {
        "use"@
    }
    else if i == 210 {
        "very"@
    }
    else if i == 211 {
        "want"@
    }
    else if i == 212 {
        "was"@
    }
    else if i == 213 {
        "watch"@
    }
    else if i == 214 {
        "water"@
    }
    else if i == 215 {
        "way"@
    }
    else if i == 216 {
        "we"@
    }
    else if i == 217 {
        "week"@
    }
    else if i == 218 {
        "well"@
    }
    else if i == 219 {
        "were"@
    }
    else if i == 220 {
        "what"@
    }
    else if i == 221 {
        "when"@
    }
    else if i == 222 {
        "where"@
    }
    else if i == 223 {
        "whether"@
    }
    else if i == 224 {
        "which"@
    }
    else if i == 225 {
        "while"@
    }
    else if i == 226 {
        "who"@
    }
    else if i == 227 {
        "will"@
    }
    else if i == 228 {
        "with"@
    }
    else if i == 229 {
        "word"@
    }
    else if i == 230 {
        "work"@
    }
    else if i == 231 {
        "worker"@
    }
    else if i == 232 {
        "working"@
    }
    else if i == 233 {
        "world"@
    }
    else if i == 234 {
        "worry"@
    }
    else if i == 235 {
        "worse"@
    }
    else if i == 236 {
        "worth"@
    }
    else if i == 237 {
        "would"@
    }
    else if i == 238 {
        "year"@
    }
    else if i == 239 {
        "you"@
    }
    else if i == 240 {
        "young"@
    }
    else if i == 241 {
        "your"@
    }
    else {
        Seq::empty()
    }
}

#[verifier::opaque]
pub open spec fn en_rank(i: int) -> u16 {
    if i < 0 {
        0
    }
    else if i == 0 {
        5
    }
    else if i == 1 {
        147
    }
    else if i == 2 {
        44
    }
    else if i == 3 {
        81
    }
    else if i == 4 {
        226
    }
    else if i == 5 {
        35
    }
    else if i == 6 {
        79
    }
    else if i == 7 {
        31
    }
    else if i == 8 {
        4
    }
    else if i == 9 {
        94
    }
    else if i == 10 {
        238
    }
    else if i == 11 {
        103
    }
    else if i == 12 {
        234
    }
    else if i == 13 {
        16
    }
    else if i == 14 {
        19
    }
    else if i == 15 {
        80
    }
    else if i == 16 {
        145
    }
    else if i == 17 {
        1
    }
    else if i == 18 {
        93
    }
    else if i == 19 {
        105
    }
    else if i == 20 {
        134
    }
    else if i == 21 {
        223
    }
    else if i == 22 {
        197
    }
    else if i == 23 {
        119
    }
    else if i == 24 {
        200
    }
    else if i == 25 {
        21
    }
    else if i == 26 {
        23
    }
    else if i == 27 {
        52
    }
    else if i == 28 {
        214
    }
    else if i == 29 {
        183
    }
    else if i == 30 {
        215
    }
    else if i == 31 {
        75
    }
    else if i == 32 {
        216
    }
    else if i == 33 {
        185
    }
    else if i == 34 {
        66
    }
    else if i == 35 {
        239
    }
    else if i == 36 {
        97
    }
    else if i == 37 {
        109
    }
    else if i == 38 {
        136
    }
    else if i == 39 {
        18
    }
    else if i == 40 {
        125
    }
    else if i == 41 {
        120
    }
    else if i == 42 {
        140
    }
    else if i == 43 {
        211
    }
    else if i == 44 {
        90
    }
    else if i == 45 {
        198
    }
    else if i == 46 {
        237
    }
    else if i == 47 {
        193
    }
    else if i == 48 {
        206
    }
    else if i == 49 {
        143
    }
    else if i == 50 {
        87
    }
    else if i == 51 {
        233
    }
    else if i == 52 {
        11
    }
    else if i == 53 {
        205
    }
    else if i == 54 {
        24
    }
    else if i == 55 {
        209
    }
    else if i == 56 {
        46
    }
    else if i == 57 {
        96
    }
    else if i == 58 {
        48
    }
    else if i == 59 {
        64
    }
    else if i == 60 {
        189
    }
    else if i == 61 {
        129
    }
    else if i == 62 {
        107
    }
    else if i == 63 {
        180
    }
    else if i == 64 {
        106
    }
    else if i == 65 {
        8
    }
    else if i == 66 {
        15
    }
    else if i == 67 {
        204
    }
    else if i == 68 {
        164
    }
    else if i == 69 {
        165
    }
    else if i == 70 {
        163
    }
    else if i == 71 {
        116
    }
    else if i == 72 {
        28
    }
    else if i == 73 {
        123
    }
    else if i == 74 {
        135
    }
    else if i == 75 {
        57
    }
    else if i == 76 {
        22
    }
    else if i == 77 {
        179
    }
    else if i == 78 {
        208
    }
    else if i == 79 {
        173
    }
    else if i == 80 {
        84
    }
    else if i == 81 {
        9
    }
    else if i == 82 {
        221
    }
    else if i == 83 {
        43
    }
    else if i == 84 {
        142
    }
    else if i == 85 {
        6
    }
    else if i == 86 {
        224
    }
    else if i == 87 {
        61
    }
    else if i == 88 {
        101
    }
    else if i == 89 {
        201
    }
    else if i == 90 {
        10
    }
    else if i == 91 {
        76
    }
    else if i == 92 {
        199
    }
    else if i == 93 {
        56
    }
    else if i == 94 {
        166
    }
    else if i == 95 {
        222
    }
    else if i == 96 {
        203
    }
    else if i == 97 {
        58
    }
    else if i == 98 {
        169
    }
    else if i == 99 {
        138
    }
    else if i == 100 {
        127
    }
    else if i == 101 {
        213
    }
    else if i == 102 {
        168
    }
    else if i == 103 {
        227
    }
    else if i == 104 {
        170
    }
    else if i == 105 {
        124
    }
    else if i == 106 {
        53
    }
    else if i == 107 {
        210
    }
    else if i == 108 {
        130
    }
    else if i == 109 {
        128
    }
    else if i == 110 {
        73
    }
    else if i == 111 {
        195
    }
    else if i == 112 {
        110
    }
    else if i == 113 {
        51
    }
    else if i == 114 {
        49
    }
    else if i == 115 {
        212
    }
    else if i == 116 {
        220
    }
    else if i == 117 {
        191
    }
    else if i == 118 {
        194
    }
    else if i == 119 {
        98
    }
    else if i == 120 {
        114
    }
    else if i == 121 {
        33
    }
    else if i == 122 {
        217
    }
    else if i == 123 {
        91
    }
    else if i == 124 {
        139
    }
    else if i == 125 {
        177
    }
    else if i == 126 {
        55
    }
    else if i == 127 {
        12
    }
    else if i == 128 {
        225
    }
    else if i == 129 {
        72
    }
    else if i == 130 {
        176
    }
    else if i == 131 {
        3
    }
    else if i == 132 {
        132
    }
    else if i == 133 {
        13
    }
    else if i == 134 {
        34
    }
    else if i == 135 {
        74
    }
    else if i == 136 {
        30
    }
    else if i == 137 {
        69
    }
    else if i == 138 {
        85
    }
    else if i == 139 {
        42
    }
    else if i == 140 {
        77
    }
    else if i == 141 {
        131
    }
    else if i == 142 {
        235
    }
    else if i == 143 {
        181
    }
    else if i == 144 {
        60
    }
    else if i == 145 {
        182
    }
    else if i == 146 {
        178
    }
    else if i == 147 {
        207
    }
    else if i == 148 {
        218
    }
    else if i == 149 {
        190
    }
    else if i == 150 {
        187
    }
    else if i == 151 {
        144
    }
    else if i == 152 {
        188
    }
    else if i == 153 {
        133
    }
    else if i == 154 {
        108
    }
    else if i == 155 {
        146
    }
    else if i == 156 {
        27
    }
    else if i == 157 {
        174
    }
    else if i == 158 {
        68
    }
    else if i == 159 {
        29
    }
    else if i == 160 {
        115
    }
    else if i == 161 {
        202
    }
    else if i == 162 {
        137
    }
    else if i == 163 {
        40
    }
    else if i == 164 {
        228
    }
    else if i == 165 {
        65
    }
    else if i == 166 {
        236
    }
    else if i == 167 {
        192
    }
    else if i == 168 {
        196
    }
    else if i == 169 {
        121
    }
    else if i == 170 {
        167
    }
    else if i == 171 {
        186
    }
    else if i == 172 {
        59
    }
    else if i == 173 {
        219
    }
    else if i == 174 {
        172
    }
    else if i == 175 {
        70
    }
    else if i == 176 {
        154
    }
    else if i == 177 {
        7
    }
    else if i == 178 {
        0
    }
    else if i == 179 {
        38
    }
    else if i == 180 {
        67
    }
    else if i == 181 {
        71
    }
    else if i == 182 {
        152
    }
    else if i == 183 {
        37
    }
    else if i == 184 {
        153
    }
    else if i == 185 {
        95
    }
    else if i == 186 {
        25
    }
    else if i == 187 {
        162
    }
    else if i == 188 {
        161
    }
    else if i == 189 {
        122
    }
    else if i == 190 {
        78
    }
    else if i == 191 {
        160
    }
    else if i == 192 {
        20
    }
    else if i == 193 {
        118
    }
    else if i == 194 {
        155
    }
    else if i == 195 {
        156
    }
    else if i == 196 {
        157
    }
    else if i == 197 {
        158
    }
    else if i == 198 {
        117
    }
    else if i == 199 {
        112
    }
    else if i == 200 {
        159
    }
    else if i == 201 {
        54
    }
    else if i == 202 {
        2
    }
    else if i == 203 {
        232
    }
    else if i == 204 {
        83
    }
    else if i == 205 {
        171
    }
    else if i == 206 {
        229
    }
    else if i == 207 {
        41
    }
    else if i == 208 {
        99
    }
    else if i == 209 {
        82
    }
    else if i == 210 {
        111
    }
    else if i == 211 {
        92
    }
    else if i == 212 {
        102
    }
    else if i == 213 {
        231
    }
    else if i == 214 {
        175
    }
    else if i == 215 {
        89
    }
    else if i == 216 {
        26
    }
    else if i == 217 {
        184
    }
    else if i == 218 {
        88
    }
    else if i == 219 {
        104
    }
    else if i == 220 {
        39
    }
    else if i == 221 {
        50
    }
    else if i == 222 {
        113
    }
    else if i == 223 {
        230
    }
    else if i == 224 {
        47
    }
    else if i == 225 {
        126
    }
    else if i == 226 {
        45
    }
    else if i == 227 {
        32
    }
    else if i == 228 {
        14
    }
    else if i == 229 {
        148
    }
    else if i == 230 {
        86
    }
    else if i == 231 {
        240
    }
    else if i == 232 {
        241
    }
    else if i == 233 {
        100
    }
    else if i == 234 {
        150
    }
    else if i == 235 {
        151
    }
    else if i == 236 {
        149
    }
    else if i == 237 {
        36
    }
    else if i == 238 {
        62
    }
    else if i == 239 {
        17
    }
    else if i == 240 {
        141
    }
    else if i == 241 {
        63
    }
    else {
        0
    }
}

fn en_entry(i: usize) -> (r: (&'static str, u16))
    requires
        i < EN_COUNT,
    ensures
        r.0@ == en_word(i as int),
        r.1 == en_rank(i as int),
{
    reveal(en_word);
    reveal(en_rank);
    match i {
        0 => ("a", 5),
        1 => ("able", 147),
        2 => ("about", 44),
        3 => ("after", 81),
        4 => ("ago", 226),
        5 => ("all", 35),
        6 => ("also", 79),
        7 => ("an", 31),
        8 => ("and", 4),
        9 => ("any", 94),
        10 => ("anything", 238),
        11 => ("are", 103),
        12 => ("around", 234),
        13 => ("as", 16),
        14 => ("at", 19),
        15 => ("back", 80),
        16 => ("bad", 145),
        17 => ("be", 1),
        18 => ("because", 93),
        19 => ("been", 105),
        20 => ("big", 134),
        21 => ("body", 223),
        22 => ("book", 197),
        23 => ("both", 119),
        24 => ("business", 200),
        25 => ("but", 21),
        26 => ("by", 23),
        27 => ("can", 52),
        28 => ("car", 214),
        29 => ("case", 183),
        30 => ("city", 215),
        31 => ("come", 75),
        32 => ("community", 216),
        33 => ("company", 185),
        34 => ("could", 66),
        35 => ("create", 239),
        36 => ("day", 97),
        37 => ("did", 109),
        38 => ("different", 136),
        39 => ("do", 18),
        40 => ("down", 125),
        41 => ("each", 120),
        42 => ("early", 140),
        43 => ("end", 211),
        44 => ("even", 90),
        45 => ("eye", 198),
        46 => ("face", 237),
        47 => ("fact", 193),
        48 => ("family", 206),
        49 => ("few", 143),
        50 => ("first", 87),
        51 => ("follow", 233),
        52 => ("for", 11),
        53 => ("friend", 205),
        54 => ("from", 24),
        55 => ("game", 209),
        56 => ("get", 46),
        57 => ("give", 96),
        58 => ("go", 48),
        59 => ("good", 64),
        60 => ("government", 189),
        61 => ("great", 129),
        62 => ("had", 107),
        63 => ("hand", 180),
        64 => ("has", 106),
        65 => ("have", 8),
        66 => ("he", 15),
        67 => ("head", 204),
        68 => ("held", 164),
        69 => ("hell", 165),
        70 => ("hello", 163),
        71 => ("help", 116),
        72 => ("her", 28),
        73 => ("here", 123),
        74 => ("high", 135),
        75 => ("him", 57),
        76 => ("his", 22),
        77 => ("home", 179),
        78 => ("hour", 208),
        79 => ("house", 173),
        80 => ("how", 84),
        81 => ("i", 9),
        82 => ("idea", 221),
        83 => ("if", 43),
        84 => ("important", 142),
        85 => ("in", 6),
        86 => ("information", 224),
        87 => ("into", 61),
        88 => ("is", 101),
        89 => ("issue", 201),
        90 => ("it", 10),
        91 => ("its", 76),
        92 => ("job", 199),
        93 => ("just", 56),
        94 => ("keyboard", 166),
        95 => ("kid", 222),
        96 => ("kind", 203),
        97 => ("know", 58),
        98 => ("language", 169),
        99 => ("large", 138),
        100 => ("last", 127),
        101 => ("law", 213),
        102 => ("layout", 168),
        103 => ("lead", 227),
        104 => ("letter", 170),
        105 => ("life", 124),
        106 => ("like", 53),
        107 => ("line", 210),
        108 => ("little", 130),
        109 => ("long", 128),
        110 => ("look", 73),
        111 => ("lot", 195),
        112 => ("made", 110),
        113 => ("make", 51),
        114 => ("me", 49),
        115 => ("member", 212),
        116 => ("minute", 220),
        117 => ("money", 191),
        118 => ("month", 194),
        119 => ("most", 98),
        120 => ("much", 114),
        121 => ("my", 33),
        122 => ("name", 217),
        123 => ("new", 91),
        124 => ("next", 139),
        125 => ("night", 177),
        126 => ("no", 55),
        127 => ("not", 12),
        128 => ("nothing", 225),
        129 => ("now", 72),
        130 => ("number", 176),
        131 => ("of", 3),
        132 => ("old", 132),
        133 => ("on", 13),
        134 => ("one", 34),
        135 => ("only", 74),
        136 => ("or", 30),
        137 => ("other", 69),
        138 => ("our", 85),
        139 => ("out", 42),
        140 => ("over", 77),
        141 => ("own", 131),
        142 => ("parent", 235),
        143 => ("part", 181),
        144 => ("people", 60),
        145 => ("place", 182),
        146 => ("point", 178),
        147 => ("power", 207),
        148 => ("president", 218),
        149 => ("problem", 190),
        150 => ("program", 187),
        151 => ("public", 144),
        152 => ("question", 188),
        153 => ("right", 133),
        154 => ("said", 108),
        155 => ("same", 146),
        156 => ("say", 27),
        157 => ("school", 174),
        158 => ("see", 68),
        159 => ("she", 29),
        160 => ("should", 115),
        161 => ("side", 202),
        162 => ("small", 137),
        163 => ("so", 40),
        164 => ("social", 228),
        165 => ("some", 65),
        166 => ("stop", 236),
        167 => ("story", 192),
        168 => ("study", 196),
        169 => ("such", 121),
        170 => ("switch", 167),
        171 => ("system", 186),
        172 => ("take", 59),
        173 => ("team", 219),
        174 => ("text", 172),
        175 => ("than", 70),
        176 => ("thank", 154),
        177 => ("that", 7),
        178 => ("the", 0),
        179 => ("their", 38),
        180 => ("them", 67),
        181 => ("then", 71),
        182 => ("theory", 152),
        183 => ("there", 37),
        184 => ("therefore", 153),
        185 => ("these", 95),
        186 => ("they", 25),
        187 => ("thick", 162),
        188 => ("thin", 161),
        189 => ("thing", 122),
        190 => ("think", 78),
        191 => ("third", 160),
        192 => ("this", 20),
        193 => ("those", 118),
        194 => ("though", 155),
        195 => ("thought", 156),
        196 => ("thousand", 157),
        197 => ("threat", 158),
        198 => ("three", 117),
        199 => ("through", 112),
        200 => ("throw", 159),
        201 => ("time", 54),
        202 => ("to", 2),
        203 => ("together", 232),
        204 => ("two", 83),
        205 => ("type", 171),
        206 => ("understand", 229),
        207 => ("up", 41),
        208 => ("us", 99),
        209 => ("use", 82),
        210 => ("very", 111),
        211 => ("want", 92),
        212 => ("was", 102),
        213 => ("watch", 231),
        214 => ("water", 175),
        215 => ("way", 89),
        216 => ("we", 26),
        217 => ("week", 184),
        218 => ("well", 88),
        219 => ("were", 104),
        220 => ("what", 39),
        221 => ("when", 50),
        222 => ("where", 113),
        223 => ("whether", 230),
        224 => ("which", 47),
        225 => ("while", 126),
        226 => ("who", 45),
        227 => ("will", 32),
        228 => ("with", 14),
        229 => ("word", 148),
        230 => ("work", 86),
        231 => ("worker", 240),
        232 => ("working", 241),
        233 => ("world", 100),
        234 => ("worry", 150),
        235 => ("worse", 151),
        236 => ("worth", 149),
        237 => ("would", 36),
        238 => ("year", 62),
        239 => ("you", 17),
        240 => ("young", 141),
        241 => ("your", 63),
        _ => ("", 0),
    }
}

#[verifier::opaque]
pub open spec fn ru_word(i: int) -> Seq<char> {
    if i < 0 {
        Seq::empty()
    }
    else if i == 0 {
        "а"@
    }
    else if i == 1 {
        "без"@
    }
    else if i == 2 {
        "бог"@
    }
    else if i == 3 {
        "более"@
    }
    else if i == 4 {
        "большой"@
    }
    else if i == 5 {
        "буква"@
    }
    else if i == 6 {
        "бы"@
    }
    else if i == 7 {
        "быть"@
    }
    else if i == 8 {
        "в"@
    }
    else if i == 9 {
        "весь"@
    }
    else if i == 10 {
        "видеть"@
    }
    else if i == 11 {
        "во"@
    }
    else if i == 12 {
        "вопрос"@
    }
    else if i == 13 {
        "вот"@
    }
    else if i == 14 {
        "время"@
    }
    else if i == 15 {
        "все"@
    }
    else if i == 16 {
        "вы"@
    }
    else if i == 17 {
        "где"@
    }
    else if i == 18 {
        "глаз"@
    }
    else if i == 19 {
        "говорить"@
    }
    else if i == 20 {
        "год"@
    }
    else if i == 21 {
        "голова"@
    }
    else if i == 22 {
        "голос"@
    }
    else if i == 23 {
        "город"@
    }
    else if i == 24 {
        "готовить"@
    }
    else if i == 25 {
        "готово"@
    }
    else if i == 26 {
        "готовый"@
    }
    else if i == 27 {
        "да"@
    }
    else if i == 28 {
        "даже"@
    }
    else if i == 29 {
        "два"@
    }
    else if i == 30 {
        "дверь"@
    }
    else if i == 31 {
        "делать"@
    }
    else if i == 32 {
        "дело"@
    }
    else if i == 33 {
        "день"@
    }
    else if i == 34 {
        "для"@
    }
    else if i == 35 {
        "до"@
    }
    else if i == 36 {
        "должен"@
    }
    else if i == 37 {
        "дом"@
    }
    else if i == 38 {
        "друг"@
    }
    else if i == 39 {
        "другой"@
    }
    else if i == 40 {
        "думать"@
    }
    else if i == 41 {
        "его"@
    }
    else if i == 42 {
        "если"@
    }
    else if i == 43 {
        "ещё"@
    }
    else if i == 44 {
        "её"@
    }
    else if i == 45 {
        "же"@
    }
    else if i == 46 {
        "жизнь"@
    }
    else if i == 47 {
        "жить"@
    }
    else if i == 48 {
        "за"@
    }
    else if i == 49 {
        "здесь"@
    }
    else if i == 50 {
        "знать"@
    }
    else if i == 51 {
        "и"@
    }
    else if i == 52 {
        "идти"@
    }
    else if i == 53 {
        "из"@
    }
    else if i == 54 {
        "или"@
    }
    else if i == 55 {
        "иметь"@
    }
    else if i == 56 {
        "их"@
    }
    else if i == 57 {
        "к"@
    }
    else if i == 58 {
        "каждый"@
    }
    else if i == 59 {
        "как"@
    }
    else if i == 60 {
        "какой"@
    }
    else if i == 61 {
        "клавиатура"@
    }
    else if i == 62 {
        "когда"@
    }
    else if i == 63 {
        "который"@
    }
    else if i == 64 {
        "кто"@
    }
    else if i == 65 {
        "ли"@
    }
    else if i == 66 {
        "лицо"@
    }
    else if i == 67 {
        "мама"@
    }
    else if i == 68 {
        "место"@
    }
    else if i == 69 {
        "мир"@
    }
    else if i == 70 {
        "можно"@
    }
    else if i == 71 {
        "мой"@
    }
    else if i == 72 {
        "молодой"@
    }
    else if i == 73 {
        "мочь"@
    }
    else if i == 74 {
        "мы"@
    }
    else if i == 75 {
        "на"@
    }
    else if i == 76 {
        "надо"@
    }
    else if i == 77 {
        "наш"@
    }
    else if i == 78 {
        "не"@
    }
    else if i == 79 {
        "нет"@
    }
    else if i == 80 {
        "ни"@
    }
    else if i == 81 {
        "ничто"@
    }
    else if i == 82 {
        "но"@
    }
    else if i == 83 {
        "новый"@
    }
    else if i == 84 {
        "ну"@
    }
    else if i == 85 {
        "о"@
    }
    else if i == 86 {
        "об"@
    }
    else if i == 87 {
        "один"@
    }
    else if i == 88 {
        "он"@
    }
    else if i == 89 {
        "она"@
    }
    else if i == 90 {
        "они"@
    }
    else if i == 91 {
        "от"@
    }
    else if i == 92 {
        "очень"@
    }
    else if i == 93 {
        "папа"@
    }
    else if i == 94 {
        "первый"@
    }
    else if i == 95 {
        "переключатель"@
    }
    else if i == 96 {
        "по"@
    }
    else if i == 97 {
        "под"@
    }
    else if i == 98 {
        "после"@
    }
    else if i == 99 {
        "последний"@
    }
    else if i == 100 {
        "потом"@
    }
    else if i == 101 {
        "потому"@
    }
    else if i == 102 {
        "при"@
    }
    else if i == 103 {
        "привет"@
    }
    else if i == 104 {
        "привычка"@
    }
    else if i == 105 {
        "пример"@
    }
    else if i == 106 {
        "приятно"@
    }
    else if i == 107 {
        "программа"@
    }
    else if i == 108 {
        "программирование"@
    }
    else if i == 109 {
        "работа"@
    }
    else if i == 110 {
        "раз"@
    }
    else if i == 111 {
        "раскладка"@
    }
    else if i == 112 {
        "рука"@
    }
    else if i == 113 {
        "с"@
    }
    else if i == 114 {
        "сам"@
    }
    else if i == 115 {
        "самый"@
    }
    else if i == 116 {
        "свой"@
    }
    else if i == 117 {
        "сделать"@
    }
    else if i == 118 {
        "себя"@
    }
    else if i == 119 {
        "сейчас"@
    }
    else if i == 120 {
        "сказать"@
    }
    else if i == 121 {
        "слово"@
    }
    else if i == 122 {
        "случай"@
    }
    else if i == 123 {
        "со"@
    }
    else if i == 124 {
        "спасибо"@
    }
    else if i == 125 {
        "стать"@
    }
    else if i == 126 {
        "сторона"@
    }
    else if i == 127 {
        "страна"@
    }
    else if i == 128 {
        "так"@
    }
    else if i == 129 {
        "такой"@
    }
    else if i == 130 {
        "там"@
    }
    else if i == 131 {
        "текст"@
    }
    else if i == 132 {
        "теперь"@
    }
    else if i == 133 {
        "то"@
    }
    else if i == 134 {
        "тогда"@
    }
    else if i == 135 {
        "тоже"@
    }
    else if i == 136 {
        "только"@
    }
    else if i == 137 {
        "тот"@
    }
    else if i == 138 {
        "тут"@
    }
    else if i == 139 {
        "ты"@
    }
    else if i == 140 {
        "у"@
    }
    else if i == 141 {
        "уже"@
    }
    else if i == 142 {
        "хорошо"@
    }
    else if i == 143 {
        "хотеть"@
    }
    else if i == 144 {
        "человек"@
    }
    else if i == 145 {
        "чем"@
    }
    else if i == 146 {
        "через"@
    }
    else if i == 147 {
        "что"@
    }
    else if i == 148 {
        "чтобы"@
    }
    else if i == 149 {
        "это"@
    }
    else if i == 150 {
        "этот"@
    }
    else if i == 151 {
        "я"@
    }
    else if i == 152 {
        "язык"@
    }
    else {
        Seq::empty()
    }
}

#[verifier::opaque]
pub open spec fn ru_rank(i: int) -> u16 {
    if i < 0 {
        0
    }
    else if i == 0 {
        9
    }
    else if i == 1 {
        85
    }
    else if i == 2 {
        129
    }
    else if i == 3 {
        127
    }
    else if i == 4 {
        93
    }
    else if i == 5 {
        148
    }
    else if i == 6 {
        44
    }
    else if i == 7 {
        5
    }
    else if i == 8 {
        1
    }
    else if i == 9 {
        25
    }
    else if i == 10 {
        109
    }
    else if i == 11 {
        73
    }
    else if i == 12 {
        110
    }
    else if i == 13 {
        54
    }
    else if i == 14 {
        49
    }
    else if i == 15 {
        33
    }
    else if i == 16 {
        36
    }
    else if i == 17 {
        76
    }
    else if i == 18 {
        106
    }
    else if i == 19 {
        55
    }
    else if i == 20 {
        26
    }
    else if i == 21 {
        126
    }
    else if i == 22 {
        133
    }
    else if i == 23 {
        132
    }
    else if i == 24 {
        136
    }
    else if i == 25 {
        135
    }
    else if i == 26 {
        134
    }
    else if i == 27 {
        112
    }
    else if i == 28 {
        72
    }
    else if i == 29 {
        67
    }
    else if i == 30 {
        130
    }
    else if i == 31 {
        128
    }
    else if i == 32 {
        62
    }
    else if i == 33 {
        68
    }
    else if i == 34 {
        30
    }
    else if i == 35 {
        48
    }
    else if i == 36 {
        94
    }
    else if i == 37 {
        114
    }
    else if i == 38 {
        102
    }
    else if i == 39 {
        53
    }
    else if i == 40 {
        117
    }
    else if i == 41 {
        39
    }
    else if i == 42 {
        50
    }
    else if i == 43 {
        43
    }
    else if i == 44 {
        69
    }
    else if i == 45 {
        32
    }
    else if i == 46 {
        63
    }
    else if i == 47 {
        120
    }
    else if i == 48 {
        23
    }
    else if i == 49 {
        113
    }
    else if i == 50 {
        58
    }
    else if i == 51 {
        0
    }
    else if i == 52 {
        92
    }
    else if i == 53 {
        19
    }
    else if i == 54 {
        42
    }
    else if i == 55 {
        96
    }
    else if i == 56 {
        83
    }
    else if i == 57 {
        14
    }
    else if i == 58 {
        101
    }
    else if i == 59 {
        18
    }
    else if i == 60 {
        81
    }
    else if i == 61 {
        150
    }
    else if i == 62 {
        52
    }
    else if i == 63 {
        21
    }
    else if i == 64 {
        64
    }
    else if i == 65 {
        90
    }
    else if i == 66 {
        100
    }
    else if i == 67 {
        138
    }
    else if i == 68 {
        95
    }
    else if i == 69 {
        122
    }
    else if i == 70 {
        79
    }
    else if i == 71 {
        57
    }
    else if i == 72 {
        137
    }
    else if i == 73 {
        35
    }
    else if i == 74 {
        17
    }
    else if i == 75 {
        3
    }
    else if i == 76 {
        88
    }
    else if i == 77 {
        56
    }
    else if i == 78 {
        2
    }
    else if i == 79 {
        103
    }
    else if i == 80 {
        105
    }
    else if i == 81 {
        97
    }
    else if i == 82 {
        15
    }
    else if i == 83 {
        70
    }
    else if i == 84 {
        80
    }
    else if i == 85 {
        29
    }
    else if i == 86 {
        123
    }
    else if i == 87 {
        46
    }
    else if i == 88 {
        6
    }
    else if i == 89 {
        12
    }
    else if i == 90 {
        16
    }
    else if i == 91 {
        27
    }
    else if i == 92 {
        66
    }
    else if i == 93 {
        139
    }
    else if i == 94 {
        65
    }
    else if i == 95 {
        152
    }
    else if i == 96 {
        10
    }
    else if i == 97 {
        78
    }
    else if i == 98 {
        82
    }
    else if i == 99 {
        124
    }
    else if i == 100 {
        87
    }
    else if i == 101 {
        115
    }
    else if i == 102 {
        60
    }
    else if i == 103 {
        141
    }
    else if i == 104 {
        143
    }
    else if i == 105 {
        142
    }
    else if i == 106 {
        144
    }
    else if i == 107 {
        145
    }
    else if i == 108 {
        146
    }
    else if i == 109 {
        84
    }
    else if i == 110 {
        75
    }
    else if i == 111 {
        151
    }
    else if i == 112 {
        71
    }
    else if i == 113 {
        7
    }
    else if i == 114 {
        51
    }
    else if i == 115 {
        86
    }
    else if i == 116 {
        24
    }
    else if i == 117 {
        118
    }
    else if i == 118 {
        45
    }
    else if i == 119 {
        98
    }
    else if i == 120 {
        40
    }
    else if i == 121 {
        91
    }
    else if i == 122 {
        125
    }
    else if i == 123 {
        74
    }
    else if i == 124 {
        140
    }
    else if i == 125 {
        59
    }
    else if i == 126 {
        116
    }
    else if i == 127 {
        119
    }
    else if i == 128 {
        28
    }
    else if i == 129 {
        38
    }
    else if i == 130 {
        77
    }
    else if i == 131 {
        149
    }
    else if i == 132 {
        104
    }
    else if i == 133 {
        22
    }
    else if i == 134 {
        108
    }
    else if i == 135 {
        107
    }
    else if i == 136 {
        41
    }
    else if i == 137 {
        34
    }
    else if i == 138 {
        99
    }
    else if i == 139 {
        31
    }
    else if i == 140 {
        20
    }
    else if i == 141 {
        47
    }
    else if i == 142 {
        131
    }
    else if i == 143 {
        89
    }
    else if i == 144 {
        37
    }
    else if i == 145 {
        121
    }
    else if i == 146 {
        111
    }
    else if i == 147 {
        8
    }
    else if i == 148 {
        61
    }
    else if i == 149 {
        11
    }
    else if i == 150 {
        13
    }
    else if i == 151 {
        4
    }
    else if i == 152 {
        147
    }
    else {
        0
    }
}

fn ru_entry(i: usize) -> (r: (&'static str, u16))
    requires
        i < RU_COUNT,
    ensures
        r.0@ == ru_word(i as int),
        r.1 == ru_rank(i as int),
{
    reveal(ru_word);
    reveal(ru_rank);
    match i {
        0 => ("а", 9),
        1 => ("без", 85),
        2 => ("бог", 129),
        3 => ("более", 127),
        4 => ("большой", 93),
        5 => ("буква", 148),
        6 => ("бы", 44),
        7 => ("быть", 5),
        8 => ("в", 1),
        9 => ("весь", 25),
        10 => ("видеть", 109),
        11 => ("во", 73),
        12 => ("вопрос", 110),
        13 => ("вот", 54),
        14 => ("время", 49),
        15 => ("все", 33),
        16 => ("вы", 36),
        17 => ("где", 76),
        18 => ("глаз", 106),
        19 => ("говорить", 55),
        20 => ("год", 26),
        21 => ("голова", 126),
        22 => ("голос", 133),
        23 => ("город", 132),
        24 => ("готовить", 136),
        25 => ("готово", 135),
        26 => ("готовый", 134),
        27 => ("да", 112),
        28 => ("даже", 72),
        29 => ("два", 67),
        30 => ("дверь", 130),
        31 => ("делать", 128),
        32 => ("дело", 62),
        33 => ("день", 68),
        34 => ("для", 30),
        35 => ("до", 48),
        36 => ("должен", 94),
        37 => ("дом", 114),
        38 => ("друг", 102),
        39 => ("другой", 53),
        40 => ("думать", 117),
        41 => ("его", 39),
        42 => ("если", 50),
        43 => ("ещё", 43),
        44 => ("её", 69),
        45 => ("же", 32),
        46 => ("жизнь", 63),
        47 => ("жить", 120),
        48 => ("за", 23),
        49 => ("здесь", 113),
        50 => ("знать", 58),
        51 => ("и", 0),
        52 => ("идти", 92),
        53 => ("из", 19),
        54 => ("или", 42),
        55 => ("иметь", 96),
        56 => ("их", 83),
        57 => ("к", 14),
        58 => ("каждый", 101),
        59 => ("как", 18),
        60 => ("какой", 81),
        61 => ("клавиатура", 150),
        62 => ("когда", 52),
        63 => ("который", 21),
        64 => ("кто", 64),
        65 => ("ли", 90),
        66 => ("лицо", 100),
        67 => ("мама", 138),
        68 => ("место", 95),
        69 => ("мир", 122),
        70 => ("можно", 79),
        71 => ("мой", 57),
        72 => ("молодой", 137),
        73 => ("мочь", 35),
        74 => ("мы", 17),
        75 => ("на", 3),
        76 => ("надо", 88),
        77 => ("наш", 56),
        78 => ("не", 2),
        79 => ("нет", 103),
        80 => ("ни", 105),
        81 => ("ничто", 97),
        82 => ("но", 15),
        83 => ("новый", 70),
        84 => ("ну", 80),
        85 => ("о", 29),
        86 => ("об", 123),
        87 => ("один", 46),
        88 => ("он", 6),
        89 => ("она", 12),
        90 => ("они", 16),
        91 => ("от", 27),
        92 => ("очень", 66),
        93 => ("папа", 139),
        94 => ("первый", 65),
        95 => ("переключатель", 152),
        96 => ("по", 10),
        97 => ("под", 78),
        98 => ("после", 82),
        99 => ("последний", 124),
        100 => ("потом", 87),
        101 => ("потому", 115),
        102 => ("при", 60),
        103 => ("привет", 141),
        104 => ("привычка", 143),
        105 => ("пример", 142),
        106 => ("приятно", 144),
        107 => ("программа", 145),
        108 => ("программирование", 146),
        109 => ("работа", 84),
        110 => ("раз", 75),
        111 => ("раскладка", 151),
        112 => ("рука", 71),
        113 => ("с", 7),
        114 => ("сам", 51),
        115 => ("самый", 86),
        116 => ("свой", 24),
        117 => ("сделать", 118),
        118 => ("себя", 45),
        119 => ("сейчас", 98),
        120 => ("сказать", 40),
        121 => ("слово", 91),
        122 => ("случай", 125),
        123 => ("со", 74),
        124 => ("спасибо", 140),
        125 => ("стать", 59),
        126 => ("сторона", 116),
        127 => ("страна", 119),
        128 => ("так", 28),
        129 => ("такой", 38),
        130 => ("там", 77),
        131 => ("текст", 149),
        132 => ("теперь", 104),
        133 => ("то", 22),
        134 => ("тогда", 108),
        135 => ("тоже", 107),
        136 => ("только", 41),
        137 => ("тот", 34),
        138 => ("тут", 99),
        139 => ("ты", 31),
        140 => ("у", 20),
        141 => ("уже", 47),
        142 => ("хорошо", 131),
        143 => ("хотеть", 89),
        144 => ("человек", 37),
        145 => ("чем", 121),
        146 => ("через", 111),
        147 => ("что", 8),
        148 => ("чтобы", 61),
        149 => ("это", 11),
        150 => ("этот", 13),
        151 => ("я", 4),
        152 => ("язык", 147),
        _ => ("", 0),
    }
}

/// Word `i` of the `lang` dictionary.
pub open spec fn dict_word(lang: Lang, i: int) -> Seq<char> {
    match lang {
        Lang::En => en_word(i),
        Lang::Ru => ru_word(i),
    }
}

/// Frequency rank of word `i` of the `lang` dictionary.
pub open spec fn dict_rank(lang: Lang, i: int) -> u16 {
    match lang {
        Lang::En => en_rank(i),
        Lang::Ru => ru_rank(i),
    }
}

/// Number of built-in words of `lang`.
pub fn dict_len(lang: Lang) -> (r: usize)
    ensures
        r == dict_size(lang),
{
    match lang {
        Lang::En => EN_COUNT,
        Lang::Ru => RU_COUNT,
    }
}

/// Word `i` of the `lang` dictionary and its rank.
pub fn dict_entry(lang: Lang, i: usize) -> (r: (&'static str, u16))
    requires
        i < dict_size(lang),
    ensures
        r.0@ == dict_word(lang, i as int),
        r.1 == dict_rank(lang, i as int),
{
    match lang {
        Lang::En => en_entry(i),
        Lang::Ru => ru_entry(i),
    }
}

} // verus!
