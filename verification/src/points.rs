//! The OpenAPI point ids of the string currents and voltages of an inverter,
//! and how they are split into real-time requests.

use vstd::prelude::*;
use crate::text::decimal;

verus! {

/// The point id of a plant's active power.
pub const PLANT_ACTIVE_POWER: &'static str = "83033";

/// The point id of an inverter's active power.
pub const INVERTER_ACTIVE_POWER: &'static str = "24";

/// The number of string inputs whose points are known.
pub const STRING_POINT_COUNT: usize = 40;

/// The most point ids one real-time request may carry.
pub const MAX_POINTS_PER_REQUEST: usize = 50;

/// The most plants or devices one real-time request names.
pub const KEYS_PER_REQUEST: usize = 20;

/// The current and voltage point ids of the string at a position (1-based).
#[derive(Clone, Copy, Debug)]
pub struct StringPoint {
    pub position: usize,
    pub current: &'static str,
    pub voltage: &'static str,
}

/// The current point id of the string at `index` (0-based).
pub open spec fn current_point_text(index: int) -> Seq<char> {
    if index == 0 {
        "70"@
    } else if index == 1 {
        "71"@
    } else if index == 2 {
        "72"@
    } else if index == 3 {
        "73"@
    } else if index == 4 {
        "74"@
    } else if index == 5 {
        "75"@
    } else if index == 6 {
        "76"@
    } else if index == 7 {
        "77"@
    } else if index == 8 {
        "78"@
    } else if index == 9 {
        "79"@
    } else if index == 10 {
        "80"@
    } else if index == 11 {
        "81"@
    } else if index == 12 {
        "82"@
    } else if index == 13 {
        "83"@
    } else if index == 14 {
        "84"@
    } else if index == 15 {
        "85"@
    } else if index == 16 {
        "92"@
    } else if index == 17 {
        "93"@
    } else if index == 18 {
        "313"@
    } else if index == 19 {
        "314"@
    } else if index == 20 {
        "315"@
    } else if index == 21 {
        "316"@
    } else if index == 22 {
        "317"@
    } else if index == 23 {
        "318"@
    } else if index == 24 {
        "319"@
    } else if index == 25 {
        "320"@
    } else if index == 26 {
        "321"@
    } else if index == 27 {
        "322"@
    } else if index == 28 {
        "323"@
    } else if index == 29 {
        "324"@
    } else if index == 30 {
        "325"@
    } else if index == 31 {
        "326"@
    } else if index == 32 {
        "7708"@
    } else if index == 33 {
        "7710"@
    } else if index == 34 {
        "7712"@
    } else if index == 35 {
        "7714"@
    } else if index == 36 {
        "7716"@
    } else if index == 37 {
        "7718"@
    } else if index == 38 {
        "7720"@
    } else {
        "7722"@
    }
}

/// The voltage point id of the string at `index` (0-based).
pub open spec fn voltage_point_text(index: int) -> Seq<char> {
    if index == 0 {
        "96"@
    } else if index == 1 {
        "97"@
    } else if index == 2 {
        "98"@
    } else if index == 3 {
        "99"@
    } else if index == 4 {
        "100"@
    } else if index == 5 {
        "101"@
    } else if index == 6 {
        "102"@
    } else if index == 7 {
        "103"@
    } else if index == 8 {
        "104"@
    } else if index == 9 {
        "105"@
    } else if index == 10 {
        "106"@
    } else if index == 11 {
        "107"@
    } else if index == 12 {
        "108"@
    } else if index == 13 {
        "109"@
    } else if index == 14 {
        "110"@
    } else if index == 15 {
        "111"@
    } else if index == 16 {
        "112"@
    } else if index == 17 {
        "113"@
    } else if index == 18 {
        "7166"@
    } else if index == 19 {
        "7167"@
    } else if index == 20 {
        "7168"@
    } else if index == 21 {
        "7169"@
    } else if index == 22 {
        "7170"@
    } else if index == 23 {
        "7171"@
    } else if index == 24 {
        "7172"@
    } else if index == 25 {
        "7173"@
    } else if index == 26 {
        "7174"@
    } else if index == 27 {
        "7175"@
    } else if index == 28 {
        "7176"@
    } else if index == 29 {
        "7177"@
    } else if index == 30 {
        "7178"@
    } else if index == 31 {
        "7179"@
    } else if index == 32 {
        "7707"@
    } else if index == 33 {
        "7709"@
    } else if index == 34 {
        "7711"@
    } else if index == 35 {
        "7713"@
    } else if index == 36 {
        "7715"@
    } else if index == 37 {
        "7717"@
    } else if index == 38 {
        "7719"@
    } else {
        "7721"@
    }
}

/// The point ids of the string at `index` (0-based) and its 1-based position.
pub open spec fn is_string_point(point: StringPoint, index: int) -> bool {
    &&& point.position == index + 1
    &&& point.current@ == current_point_text(index)
    &&& point.voltage@ == voltage_point_text(index)
}

/// The point ids of the string at `index` (0-based).
pub fn string_point(index: usize) -> (r: StringPoint)
    requires
        index < STRING_POINT_COUNT,
    ensures
        is_string_point(r, index as int),
{
    if index == 0 {
        StringPoint { position: 1, current: "70", voltage: "96" }
    } else if index == 1 {
        StringPoint { position: 2, current: "71", voltage: "97" }
    } else if index == 2 {
        StringPoint { position: 3, current: "72", voltage: "98" }
    } else if index == 3 {
        StringPoint { position: 4, current: "73", voltage: "99" }
    } else if index == 4 {
        StringPoint { position: 5, current: "74", voltage: "100" }
    } else if index == 5 {
        StringPoint { position: 6, current: "75", voltage: "101" }
    } else if index == 6 {
        StringPoint { position: 7, current: "76", voltage: "102" }
    } else if index == 7 {
        StringPoint { position: 8, current: "77", voltage: "103" }
    } else if index == 8 {
        StringPoint { position: 9, current: "78", voltage: "104" }
    } else if index == 9 {
        StringPoint { position: 10, current: "79", voltage: "105" }
    } else if index == 10 {
        StringPoint { position: 11, current: "80", voltage: "106" }
    } else if index == 11 {
        StringPoint { position: 12, current: "81", voltage: "107" }
    } else if index == 12 {
        StringPoint { position: 13, current: "82", voltage: "108" }
    } else if index == 13 {
        StringPoint { position: 14, current: "83", voltage: "109" }
    } else if index == 14 {
        StringPoint { position: 15, current: "84", voltage: "110" }
    } else if index == 15 {
        StringPoint { position: 16, current: "85", voltage: "111" }
    } else if index == 16 {
        StringPoint { position: 17, current: "92", voltage: "112" }
    } else if index == 17 {
        StringPoint { position: 18, current: "93", voltage: "113" }
    } else if index == 18 {
        StringPoint { position: 19, current: "313", voltage: "7166" }
    } else if index == 19 {
        StringPoint { position: 20, current: "314", voltage: "7167" }
    } else if index == 20 {
        StringPoint { position: 21, current: "315", voltage: "7168" }
    } else if index == 21 {
        StringPoint { position: 22, current: "316", voltage: "7169" }
    } else if index == 22 {
        StringPoint { position: 23, current: "317", voltage: "7170" }
    } else if index == 23 {
        StringPoint { position: 24, current: "318", voltage: "7171" }
    } else if index == 24 {
        StringPoint { position: 25, current: "319", voltage: "7172" }
    } else if index == 25 {
        StringPoint { position: 26, current: "320", voltage: "7173" }
    } else if index == 26 {
        StringPoint { position: 27, current: "321", voltage: "7174" }
    } else if index == 27 {
        StringPoint { position: 28, current: "322", voltage: "7175" }
    } else if index == 28 {
        StringPoint { position: 29, current: "323", voltage: "7176" }
    } else if index == 29 {
        StringPoint { position: 30, current: "324", voltage: "7177" }
    } else if index == 30 {
        StringPoint { position: 31, current: "325", voltage: "7178" }
    } else if index == 31 {
        StringPoint { position: 32, current: "326", voltage: "7179" }
    } else if index == 32 {
        StringPoint { position: 33, current: "7708", voltage: "7707" }
    } else if index == 33 {
        StringPoint { position: 34, current: "7710", voltage: "7709" }
    } else if index == 34 {
        StringPoint { position: 35, current: "7712", voltage: "7711" }
    } else if index == 35 {
        StringPoint { position: 36, current: "7714", voltage: "7713" }
    } else if index == 36 {
        StringPoint { position: 37, current: "7716", voltage: "7715" }
    } else if index == 37 {
        StringPoint { position: 38, current: "7718", voltage: "7717" }
    } else if index == 38 {
        StringPoint { position: 39, current: "7720", voltage: "7719" }
    } else {
        StringPoint { position: 40, current: "7722", voltage: "7721" }
    }
}

/// The point ids of all known strings, in position order.
pub fn string_points() -> (r: Vec<StringPoint>)
    ensures
        r@.len() == STRING_POINT_COUNT,
        forall|i: int| 0 <= i < STRING_POINT_COUNT ==> is_string_point(#[trigger] r@[i], i),
{
    let mut points: Vec<StringPoint> = Vec::new();
    let mut i: usize = 0;
    while i < STRING_POINT_COUNT
        invariant
            i <= STRING_POINT_COUNT,
            points@.len() == i,
            forall|k: int| 0 <= k < i ==> is_string_point(#[trigger] points@[k], k),
        decreases STRING_POINT_COUNT - i,
    {
        points.push(string_point(i));
        i = i + 1;
    }
    points
}

/// The point ids of the real-time request `batch` asks for, at `slot`:
/// the first request carries the inverter's active power and the strings at
/// positions 1 to 20, the second the strings at positions 21 to 40, each string
/// as its current point followed by its voltage point.
pub open spec fn batch_point_text(batch: int, slot: int) -> Seq<char> {
    if batch == 0 {
        if slot == 0 {
            "24"@
        } else if (slot - 1) % 2 == 0 {
            current_point_text((slot - 1) / 2)
        } else {
            voltage_point_text((slot - 1) / 2)
        }
    } else {
        if slot % 2 == 0 {
            current_point_text(20 + slot / 2)
        } else {
            voltage_point_text(20 + slot / 2)
        }
    }
}

/// The two real-time requests that together ask for every string point.
pub fn inverter_point_batches() -> (r: [Vec<String>; 2])
    ensures
        r@[0]@.len() == 41,
        r@[1]@.len() == 40,
        forall|slot: int| 0 <= slot < 41 ==> (#[trigger] r@[0]@[slot])@ == batch_point_text(0, slot),
        forall|slot: int| 0 <= slot < 40 ==> (#[trigger] r@[1]@[slot])@ == batch_point_text(1, slot),
{
    proof {
        reveal_strlit("24");
    }
    let mut first: Vec<String> = Vec::new();
    first.push(String::from_str(INVERTER_ACTIVE_POWER));
    let mut i: usize = 0;
    while i < 20
        invariant
            i <= 20,
            first@.len() == 1 + 2 * i,
            forall|slot: int| 0 <= slot < 1 + 2 * i ==> (#[trigger] first@[slot])@ == batch_point_text(0, slot),
        decreases 20 - i,
    {
        let point = string_point(i);
        first.push(String::from_str(point.current));
        first.push(String::from_str(point.voltage));
        proof {
            assert((1 + 2 * i - 1) % 2 == 0 && (1 + 2 * i - 1) / 2 == i) by (nonlinear_arith)
                requires i <= 20;
            assert((2 + 2 * i - 1) % 2 == 1 && (2 + 2 * i - 1) / 2 == i) by (nonlinear_arith)
                requires i <= 20;
        }
        i = i + 1;
    }
    let mut second: Vec<String> = Vec::new();
    let mut j: usize = 20;
    while j < STRING_POINT_COUNT
        invariant
            20 <= j <= STRING_POINT_COUNT,
            second@.len() == 2 * (j - 20),
            forall|slot: int| 0 <= slot < 2 * (j - 20) ==> (#[trigger] second@[slot])@ == batch_point_text(1, slot),
        decreases STRING_POINT_COUNT - j,
    {
        let point = string_point(j);
        second.push(String::from_str(point.current));
        second.push(String::from_str(point.voltage));
        proof {
            assert((2 * (j - 20)) % 2 == 0 && (2 * (j - 20)) / 2 == j - 20) by (nonlinear_arith)
                requires 20 <= j <= 40;
            assert((2 * (j - 20) + 1) % 2 == 1 && (2 * (j - 20) + 1) / 2 == j - 20) by (nonlinear_arith)
                requires 20 <= j <= 40;
        }
        j = j + 1;
    }
    [first, second]
}

/// The `j`-th batch of `size` keys: the keys from `j * size` on, at most `size` of them.
pub open spec fn batch_of(keys: Seq<String>, size: int, j: int) -> Seq<String> {
    let end = if (j + 1) * size < keys.len() { (j + 1) * size } else { keys.len() as int };
    keys.subrange(j * size, end)
}

/// The number of batches of `size` that `n` keys make.
pub open spec fn batch_count(n: int, size: int) -> int {
    (n + size - 1) / size
}

/// The keys of a list of batches, one batch after the other.
pub open spec fn concatenated(batches: Seq<Seq<String>>) -> Seq<String>
    decreases batches.len(),
{
    if batches.len() == 0 {
        Seq::empty()
    } else {
        concatenated(batches.drop_last()) + batches.last()
    }
}

/// The batches of `size` that `keys` make.
pub open spec fn batches_of(keys: Seq<String>, size: int) -> Seq<Seq<String>> {
    Seq::new(batch_count(keys.len() as int, size) as nat, |j: int| batch_of(keys, size, j))
}

proof fn lemma_batch_prefix(keys: Seq<String>, size: int, k: int)
    requires
        size > 0,
        0 <= k <= batch_count(keys.len() as int, size),
    ensures
        concatenated(batches_of(keys, size).take(k))
            == keys.subrange(0, if k * size < keys.len() { k * size } else { keys.len() as int }),
    decreases k,
{
    let n = keys.len() as int;
    let c = batch_count(n, size);
    let all = batches_of(keys, size);
    if k == 0 {
        assert(all.take(0) =~= Seq::<Seq<String>>::empty());
        assert(keys.subrange(0, 0) =~= Seq::<String>::empty());
    } else {
        lemma_batch_prefix(keys, size, k - 1);
        let j = k - 1;
        assert(j * size < n) by (nonlinear_arith)
            requires 0 <= j < c, c == (n + size - 1) / size, size > 0;
        assert((j + 1) * size == j * size + size) by (nonlinear_arith);
        assert(0 <= j * size) by (nonlinear_arith)
            requires 0 <= j, size > 0;
        assert(all.take(k).drop_last() =~= all.take(j));
        assert(all.take(k).last() == batch_of(keys, size, j));
        let end = if k * size < n { k * size } else { n };
        assert(keys.subrange(0, j * size) + keys.subrange(j * size, end) =~= keys.subrange(0, end));
    }
}

/// Batching keeps every key once and in order, and no batch is empty or
/// holds more than `size` keys: one request per batch asks for each key
/// exactly once and stays within the limit.
pub proof fn lemma_batches_cover_keys(keys: Seq<String>, size: int)
    requires
        size > 0,
    ensures
        concatenated(batches_of(keys, size)) == keys,
        forall|j: int| 0 <= j < batches_of(keys, size).len()
            ==> 0 < (#[trigger] batches_of(keys, size)[j]).len() <= size,
{
    let n = keys.len() as int;
    let c = batch_count(n, size);
    assert(c >= 0) by (nonlinear_arith)
        requires c == (n + size - 1) / size, n >= 0, size > 0;
    let all = batches_of(keys, size);
    assert forall|j: int| 0 <= j < all.len() implies 0 < (#[trigger] all[j]).len() <= size by {
        assert(j * size < n) by (nonlinear_arith)
            requires 0 <= j < c, c == (n + size - 1) / size, size > 0;
        assert((j + 1) * size == j * size + size) by (nonlinear_arith);
        assert(0 <= j * size) by (nonlinear_arith)
            requires 0 <= j, size > 0;
    }
    lemma_batch_prefix(keys, size, c);
    assert(n <= c * size) by (nonlinear_arith)
        requires c == (n + size - 1) / size, size > 0, n >= 0;
    assert(all.take(c) =~= all);
    assert(keys.subrange(0, n) =~= keys);
}

/// Splits keys into consecutive batches of `size`, the last one possibly
/// shorter (what `slice::chunks` yields), each batch copied.
pub fn request_batches(keys: &[String], size: usize) -> (r: Vec<Vec<String>>)
    requires
        size > 0,
    ensures
        r@.len() == batch_count(keys@.len() as int, size as int),
        forall|j: int| 0 <= j < r@.len() ==> (#[trigger] r@[j])@ == batch_of(keys@, size as int, j),
        r@.map_values(|b: Vec<String>| b@) == batches_of(keys@, size as int),
{
    let n = keys.len();
    let mut batches: Vec<Vec<String>> = Vec::new();
    let mut start: usize = 0;
    proof {
        assert(batches@.len() * size == 0);
        if 0 < n {
            assert(batch_count(n as int, size as int) >= 1) by (nonlinear_arith)
                requires n > 0, size > 0;
        } else {
            assert(batch_count(0, size as int) == 0) by (nonlinear_arith)
                requires size > 0;
        }
    }
    while start < n
        invariant
            n == keys@.len(),
            size > 0,
            start <= n,
            start < n ==> start == batches@.len() * size,
            start < n ==> batches@.len() < batch_count(n as int, size as int),
            start == n ==> batches@.len() == batch_count(n as int, size as int),
            forall|j: int| 0 <= j < batches@.len() ==> (#[trigger] batches@[j])@ == batch_of(keys@, size as int, j),
        decreases n - start,
    {
        let end: usize = if size < n - start { start + size } else { n };
        let mut batch: Vec<String> = Vec::new();
        let mut i: usize = start;
        while i < end
            invariant
                start <= i <= end,
                end <= keys@.len(),
                batch@ == keys@.subrange(start as int, i as int),
            decreases end - i,
        {
            batch.push(keys[i].clone());
            proof {
                assert(keys@.subrange(start as int, i + 1) =~= keys@.subrange(start as int, i as int).push(keys@[i as int]));
            }
            i = i + 1;
        }
        let ghost k = batches@.len() as int;
        proof {
            assert((k + 1) * size == k * size + size) by (nonlinear_arith);
            assert(batch@ == batch_of(keys@, size as int, k));
        }
        batches.push(batch);
        start = end;
        proof {
            let c = batch_count(n as int, size as int);
            if start < n {
                assert((k + 1) * size < n);
                assert(c * size >= n) by (nonlinear_arith)
                    requires c == (n as int + size as int - 1) / (size as int), size > 0;
                assert(k + 1 < c) by (nonlinear_arith)
                    requires (k + 1) * size < n, c * size >= n, size > 0;
            } else {
                assert(k * size < n);
                assert(n <= (k + 1) * size);
                assert(c == k + 1) by (nonlinear_arith)
                    requires c == (n as int + size as int - 1) / (size as int), k * size < n, n <= (k + 1) * size, size > 0;
            }
        }
    }
    proof {
        assert(batches@.map_values(|b: Vec<String>| b@) =~= batches_of(keys@, size as int));
    }
    batches
}

/// The number of the current point of the string at `index` (0-based):
/// 70 onwards for the first sixteen strings, 92 and 93 for the next two,
/// 313 onwards for the next fourteen, and every other number from 7708 for
/// the last eight.
pub open spec fn current_point_number(index: int) -> int {
    if index < 16 {
        70 + index
    } else if index < 18 {
        76 + index
    } else if index < 32 {
        295 + index
    } else {
        7708 + 2 * (index - 32)
    }
}

/// The number of the voltage point of the string at `index` (0-based):
/// 96 onwards for the first eighteen strings, 7166 onwards for the next
/// fourteen, and every other number from 7707 for the last eight.
pub open spec fn voltage_point_number(index: int) -> int {
    if index < 18 {
        96 + index
    } else if index < 32 {
        7148 + index
    } else {
        7707 + 2 * (index - 32)
    }
}

proof fn lemma_point_table_part_0(index: int)
    requires
        0 <= index < 10,
    ensures
        current_point_text(index) == decimal(current_point_number(index) as nat),
        voltage_point_text(index) == decimal(voltage_point_number(index) as nat),
{
    reveal_with_fuel(decimal, 5);
    if index == 0 {
        reveal_strlit("70");
        reveal_strlit("96");
        assert(decimal(70) =~= seq!['7', '0']);
        assert(decimal(96) =~= seq!['9', '6']);
    } else if index == 1 {
        reveal_strlit("71");
        reveal_strlit("97");
        assert(decimal(71) =~= seq!['7', '1']);
        assert(decimal(97) =~= seq!['9', '7']);
    } else if index == 2 {
        reveal_strlit("72");
        reveal_strlit("98");
        assert(decimal(72) =~= seq!['7', '2']);
        assert(decimal(98) =~= seq!['9', '8']);
    } else if index == 3 {
        reveal_strlit("73");
        reveal_strlit("99");
        assert(decimal(73) =~= seq!['7', '3']);
        assert(decimal(99) =~= seq!['9', '9']);
    } else if index == 4 {
        reveal_strlit("74");
        reveal_strlit("100");
        assert(decimal(74) =~= seq!['7', '4']);
        assert(decimal(100) =~= seq!['1', '0', '0']);
    } else if index == 5 {
        reveal_strlit("75");
        reveal_strlit("101");
        assert(decimal(75) =~= seq!['7', '5']);
        assert(decimal(101) =~= seq!['1', '0', '1']);
    } else if index == 6 {
        reveal_strlit("76");
        reveal_strlit("102");
        assert(decimal(76) =~= seq!['7', '6']);
        assert(decimal(102) =~= seq!['1', '0', '2']);
    } else if index == 7 {
        reveal_strlit("77");
        reveal_strlit("103");
        assert(decimal(77) =~= seq!['7', '7']);
        assert(decimal(103) =~= seq!['1', '0', '3']);
    } else if index == 8 {
        reveal_strlit("78");
        reveal_strlit("104");
        assert(decimal(78) =~= seq!['7', '8']);
        assert(decimal(104) =~= seq!['1', '0', '4']);
    } else if index == 9 {
        reveal_strlit("79");
        reveal_strlit("105");
        assert(decimal(79) =~= seq!['7', '9']);
        assert(decimal(105) =~= seq!['1', '0', '5']);
    }
}

proof fn lemma_point_table_part_1(index: int)
    requires
        10 <= index < 20,
    ensures
        current_point_text(index) == decimal(current_point_number(index) as nat),
        voltage_point_text(index) == decimal(voltage_point_number(index) as nat),
{
    reveal_with_fuel(decimal, 5);
    if index == 10 {
        reveal_strlit("80");
        reveal_strlit("106");
        assert(decimal(80) =~= seq!['8', '0']);
        assert(decimal(106) =~= seq!['1', '0', '6']);
    } else if index == 11 {
        reveal_strlit("81");
        reveal_strlit("107");
        assert(decimal(81) =~= seq!['8', '1']);
        assert(decimal(107) =~= seq!['1', '0', '7']);
    } else if index == 12 {
        reveal_strlit("82");
        reveal_strlit("108");
        assert(decimal(82) =~= seq!['8', '2']);
        assert(decimal(108) =~= seq!['1', '0', '8']);
    } else if index == 13 {
        reveal_strlit("83");
        reveal_strlit("109");
        assert(decimal(83) =~= seq!['8', '3']);
        assert(decimal(109) =~= seq!['1', '0', '9']);
    } else if index == 14 {
        reveal_strlit("84");
        reveal_strlit("110");
        assert(decimal(84) =~= seq!['8', '4']);
        assert(decimal(110) =~= seq!['1', '1', '0']);
    } else if index == 15 {
        reveal_strlit("85");
        reveal_strlit("111");
        assert(decimal(85) =~= seq!['8', '5']);
        assert(decimal(111) =~= seq!['1', '1', '1']);
    } else if index == 16 {
        reveal_strlit("92");
        reveal_strlit("112");
        assert(decimal(92) =~= seq!['9', '2']);
        assert(decimal(112) =~= seq!['1', '1', '2']);
    } else if index == 17 {
        reveal_strlit("93");
        reveal_strlit("113");
        assert(decimal(93) =~= seq!['9', '3']);
        assert(decimal(113) =~= seq!['1', '1', '3']);
    } else if index == 18 {
        reveal_strlit("313");
        reveal_strlit("7166");
        assert(decimal(313) =~= seq!['3', '1', '3']);
        assert(decimal(7166) =~= seq!['7', '1', '6', '6']);
    } else if index == 19 {
        reveal_strlit("314");
        reveal_strlit("7167");
        assert(decimal(314) =~= seq!['3', '1', '4']);
        assert(decimal(7167) =~= seq!['7', '1', '6', '7']);
    }
}

proof fn lemma_point_table_part_2(index: int)
    requires
        20 <= index < 30,
    ensures
        current_point_text(index) == decimal(current_point_number(index) as nat),
        voltage_point_text(index) == decimal(voltage_point_number(index) as nat),
{
    reveal_with_fuel(decimal, 5);
    if index == 20 {
        reveal_strlit("315");
        reveal_strlit("7168");
        assert(decimal(315) =~= seq!['3', '1', '5']);
        assert(decimal(7168) =~= seq!['7', '1', '6', '8']);
    } else if index == 21 {
        reveal_strlit("316");
        reveal_strlit("7169");
        assert(decimal(316) =~= seq!['3', '1', '6']);
        assert(decimal(7169) =~= seq!['7', '1', '6', '9']);
    } else if index == 22 {
        reveal_strlit("317");
        reveal_strlit("7170");
        assert(decimal(317) =~= seq!['3', '1', '7']);
        assert(decimal(7170) =~= seq!['7', '1', '7', '0']);
    } else if index == 23 {
        reveal_strlit("318");
        reveal_strlit("7171");
        assert(decimal(318) =~= seq!['3', '1', '8']);
        assert(decimal(7171) =~= seq!['7', '1', '7', '1']);
    } else if index == 24 {
        reveal_strlit("319");
        reveal_strlit("7172");
        assert(decimal(319) =~= seq!['3', '1', '9']);
        assert(decimal(7172) =~= seq!['7', '1', '7', '2']);
    } else if index == 25 {
        reveal_strlit("320");
        reveal_strlit("7173");
        assert(decimal(320) =~= seq!['3', '2', '0']);
        assert(decimal(7173) =~= seq!['7', '1', '7', '3']);
    } else if index == 26 {
        reveal_strlit("321");
        reveal_strlit("7174");
        assert(decimal(321) =~= seq!['3', '2', '1']);
        assert(decimal(7174) =~= seq!['7', '1', '7', '4']);
    } else if index == 27 {
        reveal_strlit("322");
        reveal_strlit("7175");
        assert(decimal(322) =~= seq!['3', '2', '2']);
        assert(decimal(7175) =~= seq!['7', '1', '7', '5']);
    } else if index == 28 {
        reveal_strlit("323");
        reveal_strlit("7176");
        assert(decimal(323) =~= seq!['3', '2', '3']);
        assert(decimal(7176) =~= seq!['7', '1', '7', '6']);
    } else if index == 29 {
        reveal_strlit("324");
        reveal_strlit("7177");
        assert(decimal(324) =~= seq!['3', '2', '4']);
        assert(decimal(7177) =~= seq!['7', '1', '7', '7']);
    }
}

proof fn lemma_point_table_part_3(index: int)
    requires
        30 <= index < 40,
    ensures
        current_point_text(index) == decimal(current_point_number(index) as nat),
        voltage_point_text(index) == decimal(voltage_point_number(index) as nat),
{
    reveal_with_fuel(decimal, 5);
    if index == 30 {
        reveal_strlit("325");
        reveal_strlit("7178");
        assert(decimal(325) =~= seq!['3', '2', '5']);
        assert(decimal(7178) =~= seq!['7', '1', '7', '8']);
    } else if index == 31 {
        reveal_strlit("326");
        reveal_strlit("7179");
        assert(decimal(326) =~= seq!['3', '2', '6']);
        assert(decimal(7179) =~= seq!['7', '1', '7', '9']);
    } else if index == 32 {
        reveal_strlit("7708");
        reveal_strlit("7707");
        assert(decimal(7708) =~= seq!['7', '7', '0', '8']);
        assert(decimal(7707) =~= seq!['7', '7', '0', '7']);
    } else if index == 33 {
        reveal_strlit("7710");
        reveal_strlit("7709");
        assert(decimal(7710) =~= seq!['7', '7', '1', '0']);
        assert(decimal(7709) =~= seq!['7', '7', '0', '9']);
    } else if index == 34 {
        reveal_strlit("7712");
        reveal_strlit("7711");
        assert(decimal(7712) =~= seq!['7', '7', '1', '2']);
        assert(decimal(7711) =~= seq!['7', '7', '1', '1']);
    } else if index == 35 {
        reveal_strlit("7714");
        reveal_strlit("7713");
        assert(decimal(7714) =~= seq!['7', '7', '1', '4']);
        assert(decimal(7713) =~= seq!['7', '7', '1', '3']);
    } else if index == 36 {
        reveal_strlit("7716");
        reveal_strlit("7715");
        assert(decimal(7716) =~= seq!['7', '7', '1', '6']);
        assert(decimal(7715) =~= seq!['7', '7', '1', '5']);
    } else if index == 37 {
        reveal_strlit("7718");
        reveal_strlit("7717");
        assert(decimal(7718) =~= seq!['7', '7', '1', '8']);
        assert(decimal(7717) =~= seq!['7', '7', '1', '7']);
    } else if index == 38 {
        reveal_strlit("7720");
        reveal_strlit("7719");
        assert(decimal(7720) =~= seq!['7', '7', '2', '0']);
        assert(decimal(7719) =~= seq!['7', '7', '1', '9']);
    } else if index == 39 {
        reveal_strlit("7722");
        reveal_strlit("7721");
        assert(decimal(7722) =~= seq!['7', '7', '2', '2']);
        assert(decimal(7721) =~= seq!['7', '7', '2', '1']);
    }
}

/// The point table of iSolarCloud: the string at 1-based position `p` reads
/// its current from point 69 + p and its voltage from point 95 + p for the
/// first sixteen positions, and so on by the ranges above; every position's
/// ids are those numbers written in decimal.
pub proof fn lemma_point_table(index: int)
    requires
        0 <= index < 40,
    ensures
        current_point_text(index) == decimal(current_point_number(index) as nat),
        voltage_point_text(index) == decimal(voltage_point_number(index) as nat),
        index < 16 ==> current_point_number(index) == 69 + (index + 1) && voltage_point_number(index) == 95 + (index + 1),
{
    if index < 10 {
        lemma_point_table_part_0(index);
    } else if index < 20 {
        lemma_point_table_part_1(index);
    } else if index < 30 {
        lemma_point_table_part_2(index);
    } else {
        lemma_point_table_part_3(index);
    }
}

} // verus!
