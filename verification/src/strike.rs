//! Virtual bell strikes: the choices of position and mallet, and the fixed
//! guidance texts offered to the player.

use vstd::prelude::*;
use crate::text::{all_ascii, ascii_lower, str_equals, to_lowercase, unicode_lowercase};

verus! {

/// Where on the bell the mallet lands.
#[derive(Debug, Clone, Copy, PartialEq, Eq, Structural)]
pub enum StrikePosition {
    Lip,
    Waist,
    Shoulder,
    Crown,
    Rim,
}

/// How hard the mallet's head is.
#[derive(Debug, Clone, Copy, PartialEq, Eq, Structural)]
pub enum MalletHardness {
    Soft,
    Medium,
    Hard,
    Metal,
}

/// The position a lowercased key names; any other key means the waist.
pub open spec fn position_named(key: Seq<char>) -> StrikePosition {
    if key == "lip"@ {
        StrikePosition::Lip
    } else if key == "waist"@ {
        StrikePosition::Waist
    } else if key == "shoulder"@ {
        StrikePosition::Shoulder
    } else if key == "crown"@ {
        StrikePosition::Crown
    } else if key == "rim"@ {
        StrikePosition::Rim
    } else {
        StrikePosition::Waist
    }
}

/// The mallet a lowercased key names; any other key means a medium mallet.
pub open spec fn mallet_named(key: Seq<char>) -> MalletHardness {
    if key == "soft"@ {
        MalletHardness::Soft
    } else if key == "medium"@ {
        MalletHardness::Medium
    } else if key == "hard"@ {
        MalletHardness::Hard
    } else if key == "metal"@ {
        MalletHardness::Metal
    } else {
        MalletHardness::Medium
    }
}

impl StrikePosition {
    /// The key of this position.
    pub open spec fn spec_key(self) -> Seq<char> {
        match self {
            StrikePosition::Lip => "lip"@,
            StrikePosition::Waist => "waist"@,
            StrikePosition::Shoulder => "shoulder"@,
            StrikePosition::Crown => "crown"@,
            StrikePosition::Rim => "rim"@,
        }
    }

    /// The key of this position.
    pub fn key(&self) -> (key: &'static str)
        ensures
            key@ == self.spec_key(),
    {
        match self {
            StrikePosition::Lip => "lip",
            StrikePosition::Waist => "waist",
            StrikePosition::Shoulder => "shoulder",
            StrikePosition::Crown => "crown",
            StrikePosition::Rim => "rim",
        }
    }

    /// The position named by `key`, compared case-insensitively; unknown
    /// keys fall back to the waist.
    pub fn from_key(key: &str) -> (position: StrikePosition)
        ensures
            position == position_named(unicode_lowercase(key@)),
            all_ascii(key@) ==> position == position_named(key@.map_values(|c: char| ascii_lower(c))),
    {
        let lower = to_lowercase(key);
        let k = lower.as_str();
        if str_equals(k, "lip") {
            StrikePosition::Lip
        } else if str_equals(k, "waist") {
            StrikePosition::Waist
        } else if str_equals(k, "shoulder") {
            StrikePosition::Shoulder
        } else if str_equals(k, "crown") {
            StrikePosition::Crown
        } else if str_equals(k, "rim") {
            StrikePosition::Rim
        } else {
            StrikePosition::Waist
        }
    }

    /// The traditional name of this part of the bell.
    pub fn display_name(&self) -> (name: &'static str)
        ensures
            name@ == match self {
                StrikePosition::Lip => "钟口"@,
                StrikePosition::Waist => "钟腰"@,
                StrikePosition::Shoulder => "钟肩"@,
                StrikePosition::Crown => "钟顶"@,
                StrikePosition::Rim => "唇边"@,
            },
    {
        match self {
            StrikePosition::Lip => "钟口",
            StrikePosition::Waist => "钟腰",
            StrikePosition::Shoulder => "钟肩",
            StrikePosition::Crown => "钟顶",
            StrikePosition::Rim => "唇边",
        }
    }
}

impl MalletHardness {
    /// The key of this mallet.
    pub open spec fn spec_key(self) -> Seq<char> {
        match self {
            MalletHardness::Soft => "soft"@,
            MalletHardness::Medium => "medium"@,
            MalletHardness::Hard => "hard"@,
            MalletHardness::Metal => "metal"@,
        }
    }

    /// The key of this mallet.
    pub fn key(&self) -> (key: &'static str)
        ensures
            key@ == self.spec_key(),
    {
        match self {
            MalletHardness::Soft => "soft",
            MalletHardness::Medium => "medium",
            MalletHardness::Hard => "hard",
            MalletHardness::Metal => "metal",
        }
    }

    /// The mallet named by `key`, compared case-insensitively; unknown keys
    /// fall back to a medium mallet.
    pub fn from_key(key: &str) -> (mallet: MalletHardness)
        ensures
            mallet == mallet_named(unicode_lowercase(key@)),
            all_ascii(key@) ==> mallet == mallet_named(key@.map_values(|c: char| ascii_lower(c))),
    {
        let lower = to_lowercase(key);
        let k = lower.as_str();
        if str_equals(k, "soft") {
            MalletHardness::Soft
        } else if str_equals(k, "medium") {
            MalletHardness::Medium
        } else if str_equals(k, "hard") {
            MalletHardness::Hard
        } else if str_equals(k, "metal") {
            MalletHardness::Metal
        } else {
            MalletHardness::Medium
        }
    }

    /// The name of this kind of mallet and what it is made of.
    pub fn display_name(&self) -> (name: &'static str)
        ensures
            name@ == match self {
                MalletHardness::Soft => "软质槌 (毡/布包)"@,
                MalletHardness::Medium => "中硬槌 (木槌)"@,
                MalletHardness::Hard => "硬质槌 (红木/牛角)"@,
                MalletHardness::Metal => "金属槌 (铜/铁)"@,
            },
    {
        match self {
            MalletHardness::Soft => "软质槌 (毡/布包)",
            MalletHardness::Medium => "中硬槌 (木槌)",
            MalletHardness::Hard => "硬质槌 (红木/牛角)",
            MalletHardness::Metal => "金属槌 (铜/铁)",
        }
    }
}

/// A key made only of lowercase ASCII letters is its own ASCII lowercase.
proof fn lemma_lowercase_key_is_fixed(key: Seq<char>)
    requires
        forall|i: int| 0 <= i < key.len() ==> 'a' <= #[trigger] key[i] && key[i] <= 'z',
    ensures
        all_ascii(key),
        key.map_values(|c: char| ascii_lower(c)) == key,
{
    assert(key.map_values(|c: char| ascii_lower(c)) =~= key);
}

/// Every position's own key, in any ASCII letter case, resolves back to that
/// position: the key is ASCII and its lowercase names the position.
pub proof fn lemma_position_key_round_trip(position: StrikePosition)
    ensures
        all_ascii(position.spec_key()),
        position_named(position.spec_key().map_values(|c: char| ascii_lower(c))) == position,
{
    reveal_strlit("lip");
    reveal_strlit("waist");
    reveal_strlit("shoulder");
    reveal_strlit("crown");
    reveal_strlit("rim");
    lemma_lowercase_key_is_fixed(position.spec_key());
    assert("lip"@.len() == 3 && "waist"@.len() == 5 && "shoulder"@.len() == 8);
    assert("crown"@.len() == 5 && "rim"@.len() == 3 && "lip"@[0] != "rim"@[0]);
    assert("lip"@ != "waist"@ && "lip"@ != "shoulder"@ && "lip"@ != "crown"@ && "lip"@ != "rim"@);
    assert("waist"@[0] != "crown"@[0]);
    assert("waist"@ != "shoulder"@ && "waist"@ != "crown"@ && "waist"@ != "rim"@);
    assert("shoulder"@ != "crown"@ && "shoulder"@ != "rim"@ && "crown"@ != "rim"@);
}

/// Every mallet's own key, in any ASCII letter case, resolves back to that
/// mallet: the key is ASCII and its lowercase names the mallet.
pub proof fn lemma_mallet_key_round_trip(mallet: MalletHardness)
    ensures
        all_ascii(mallet.spec_key()),
        mallet_named(mallet.spec_key().map_values(|c: char| ascii_lower(c))) == mallet,
{
    reveal_strlit("soft");
    reveal_strlit("medium");
    reveal_strlit("hard");
    reveal_strlit("metal");
    lemma_lowercase_key_is_fixed(mallet.spec_key());
    assert("soft"@.len() == 4 && "medium"@.len() == 6 && "hard"@.len() == 4);
    assert("metal"@.len() == 5 && "soft"@[0] != "hard"@[0]);
    assert("soft"@ != "medium"@ && "soft"@ != "hard"@ && "soft"@ != "metal"@);
    assert("medium"@ != "hard"@ && "medium"@ != "metal"@ && "hard"@ != "metal"@);
}


/// The playing advice for a position and mallet, where the combination is a
/// known technique.
pub open spec fn spec_technique_note(position: StrikePosition, mallet: MalletHardness) -> Option<Seq<char>> {
    match (position, mallet) {
        (StrikePosition::Lip, MalletHardness::Medium) | (StrikePosition::Lip, MalletHardness::Soft) =>
            Some("♪ 经典编钟敲法：钟口+中硬槌，主音清晰，泛音丰富"@),
        (StrikePosition::Waist, MalletHardness::Hard) | (StrikePosition::Waist, MalletHardness::Metal) =>
            Some("♫ 钟声明亮穿透力强，适合广场/庆典"@),
        (StrikePosition::Shoulder, MalletHardness::Soft) =>
            Some("♬ 音色温润醇厚，适合诵经背景音"@),
        (StrikePosition::Crown, MalletHardness::Hard) =>
            Some("♩ 泛音突出，产生空灵效果，适合独奏"@),
        _ => None,
    }
}

/// Playing advice is given for exactly six combinations: a lip strike with a
/// medium or soft mallet, a waist strike with a hard or metal mallet, a
/// shoulder strike with a soft mallet, and a crown strike with a hard mallet.
pub proof fn lemma_technique_combinations(position: StrikePosition, mallet: MalletHardness)
    ensures
        spec_technique_note(position, mallet).is_some() <==> (
            (position == StrikePosition::Lip && (mallet == MalletHardness::Medium || mallet == MalletHardness::Soft))
            || (position == StrikePosition::Waist && (mallet == MalletHardness::Hard || mallet == MalletHardness::Metal))
            || (position == StrikePosition::Shoulder && mallet == MalletHardness::Soft)
            || (position == StrikePosition::Crown && mallet == MalletHardness::Hard)),
{
}

/// The playing advice for a position and mallet, where the combination is a
/// known technique.
pub fn technique_note(position: StrikePosition, mallet: MalletHardness) -> (note: Option<&'static str>)
    ensures
        match note {
            Some(n) => spec_technique_note(position, mallet) == Some(n@),
            None => spec_technique_note(position, mallet).is_none(),
        },
{
    match (position, mallet) {
        (StrikePosition::Lip, MalletHardness::Medium) | (StrikePosition::Lip, MalletHardness::Soft) =>
            Some("♪ 经典编钟敲法：钟口+中硬槌，主音清晰，泛音丰富"),
        (StrikePosition::Waist, MalletHardness::Hard) | (StrikePosition::Waist, MalletHardness::Metal) =>
            Some("♫ 钟声明亮穿透力强，适合广场/庆典"),
        (StrikePosition::Shoulder, MalletHardness::Soft) =>
            Some("♬ 音色温润醇厚，适合诵经背景音"),
        (StrikePosition::Crown, MalletHardness::Hard) =>
            Some("♩ 泛音突出，产生空灵效果，适合独奏"),
        _ => None,
    }
}

/// The mallet choices offered to the player: key, name and character of the sound.
pub open spec fn mallet_option_rows() -> Seq<(Seq<char>, Seq<char>, Seq<char>)> {
    seq![
        ("soft"@, "软质槌 (毡包/布包)"@, "温暖醇厚，激发低频为主，延音最长"@),
        ("medium"@, "中硬槌 (硬木/枣木)"@, "均衡饱满，传统编钟标准用槌"@),
        ("hard"@, "硬质槌 (红木/牛角/玉石)"@, "明亮清脆，中高频丰富，穿透力强"@),
        ("metal"@, "金属槌 (铜/铁槌)"@, "金石之声，高频炸裂，极具穿透力，易损伤钟体"@),
    ]
}

/// The mallet choices offered to the player: key, name and character of the sound.
pub fn get_mallet_options() -> (options: Vec<(&'static str, &'static str, &'static str)>)
    ensures
        options@.map_values(|o: (&'static str, &'static str, &'static str)| (o.0@, o.1@, o.2@)) == mallet_option_rows(),
{
    let mut options: Vec<(&'static str, &'static str, &'static str)> = Vec::new();
    options.push(("soft", "软质槌 (毡包/布包)", "温暖醇厚，激发低频为主，延音最长"));
    options.push(("medium", "中硬槌 (硬木/枣木)", "均衡饱满，传统编钟标准用槌"));
    options.push(("hard", "硬质槌 (红木/牛角/玉石)", "明亮清脆，中高频丰富，穿透力强"));
    options.push(("metal", "金属槌 (铜/铁槌)", "金石之声，高频炸裂，极具穿透力，易损伤钟体"));
    assert(options@.map_values(|o: (&'static str, &'static str, &'static str)| (o.0@, o.1@, o.2@)) =~= mallet_option_rows());
    options
}

/// The lines of the strike tutorial, in order.
pub open spec fn strike_tutorial_lines() -> Seq<Seq<char>> {
    seq![
        "🎓 古代编钟敲击技法入门:"@,
        ""@,
        "【基本握法】"@,
        "  - 右手握槌柄中后段，手腕放松，手指自然环绕"@,
        "  - 以肘关节为轴，小臂带动槌头做圆弧运动"@,
        "  - 接触瞬间有'点触'感，忌死压钟面"@,
        ""@,
        "【力度控制】 (对应滑块 0.0 - 1.0)"@,
        "  - 0.1 - 0.25: 轻抚/拨奏，mp - p力度，适合室内清奏"@,
        "  - 0.25 - 0.5: 标准敲击，mf力度，日常练习推荐"@,
        "  - 0.5 - 0.8: 重槌击奏，f力度，集体演奏"@,
        "  - 0.8 - 1.0: 全力敲击，ff力度，庆典/祭祀/报时"@,
        ""@,
        "【位置差异】"@,
        "  - 钟口 (正鼓部): 两正鼓音区交汇处，激发主音最充分"@,
        "  - 钟腰 (中鼓部): 振动均匀，适合合奏"@,
        "  - 钟肩: 振动偏弱，辅助音色"@,
        "  - 唇边 (侧鼓部): 曾侯乙编钟的第二基音位置!"@,
        "  - 钟顶 (舞部): 几乎不激发基频，纯泛音效果"@,
        ""@,
        "【编钟特殊技巧】 (一钟双音原理)"@,
        "  - 曾侯乙每套编钟可敲出两个大三度/小三度音"@,
        "  - 正鼓部 (钟口正中) → 第一基音 (正鼓音)"@,
        "  - 侧鼓部 (钟口侧面) → 第二基音 (侧鼓音)"@,
        "  - 两个音互不干扰，现代声学揭秘: 节线分布"@,
        ""@,
        "【保养禁忌】"@,
        "  - 禁止金属槌直接敲击古钟，会造成永久性凹陷"@,
        "  - 同一位置连续重击不超过3次，防止金属疲劳"@,
        "  - 冬季低温时先轻敲预热，骤热骤冷会开裂"@,
        ""@,
        "✨ 听辨练习: 调节不同位置+不同槌+不同力度组合，仔细听泛音结构变化!"@,
    ]
}

/// The beginner's guide to striking a chime bell: grip, force, position,
/// the two-tone technique and care of the bell, one line per entry.
pub fn generate_strike_tutorial() -> (tutorial: Vec<String>)
    ensures
        tutorial@.map_values(|line: String| line@) == strike_tutorial_lines(),
{
    let mut tutorial: Vec<String> = Vec::new();
    tutorial.push("🎓 古代编钟敲击技法入门:".to_string());
    tutorial.push("".to_string());
    tutorial.push("【基本握法】".to_string());
    tutorial.push("  - 右手握槌柄中后段，手腕放松，手指自然环绕".to_string());
    tutorial.push("  - 以肘关节为轴，小臂带动槌头做圆弧运动".to_string());
    tutorial.push("  - 接触瞬间有'点触'感，忌死压钟面".to_string());
    tutorial.push("".to_string());
    tutorial.push("【力度控制】 (对应滑块 0.0 - 1.0)".to_string());
    tutorial.push("  - 0.1 - 0.25: 轻抚/拨奏，mp - p力度，适合室内清奏".to_string());
    tutorial.push("  - 0.25 - 0.5: 标准敲击，mf力度，日常练习推荐".to_string());
    tutorial.push("  - 0.5 - 0.8: 重槌击奏，f力度，集体演奏".to_string());
    tutorial.push("  - 0.8 - 1.0: 全力敲击，ff力度，庆典/祭祀/报时".to_string());
    tutorial.push("".to_string());
    tutorial.push("【位置差异】".to_string());
    tutorial.push("  - 钟口 (正鼓部): 两正鼓音区交汇处，激发主音最充分".to_string());
    tutorial.push("  - 钟腰 (中鼓部): 振动均匀，适合合奏".to_string());
    tutorial.push("  - 钟肩: 振动偏弱，辅助音色".to_string());
    tutorial.push("  - 唇边 (侧鼓部): 曾侯乙编钟的第二基音位置!".to_string());
    tutorial.push("  - 钟顶 (舞部): 几乎不激发基频，纯泛音效果".to_string());
    tutorial.push("".to_string());
    tutorial.push("【编钟特殊技巧】 (一钟双音原理)".to_string());
    tutorial.push("  - 曾侯乙每套编钟可敲出两个大三度/小三度音".to_string());
    tutorial.push("  - 正鼓部 (钟口正中) → 第一基音 (正鼓音)".to_string());
    tutorial.push("  - 侧鼓部 (钟口侧面) → 第二基音 (侧鼓音)".to_string());
    tutorial.push("  - 两个音互不干扰，现代声学揭秘: 节线分布".to_string());
    tutorial.push("".to_string());
    tutorial.push("【保养禁忌】".to_string());
    tutorial.push("  - 禁止金属槌直接敲击古钟，会造成永久性凹陷".to_string());
    tutorial.push("  - 同一位置连续重击不超过3次，防止金属疲劳".to_string());
    tutorial.push("  - 冬季低温时先轻敲预热，骤热骤冷会开裂".to_string());
    tutorial.push("".to_string());
    tutorial.push("✨ 听辨练习: 调节不同位置+不同槌+不同力度组合，仔细听泛音结构变化!".to_string());
    assert(tutorial@.map_values(|line: String| line@) =~= strike_tutorial_lines());
    tutorial
}

} // verus!
