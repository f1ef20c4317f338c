//! The building of a bell tower as its acoustics see it: the kinds of wall,
//! roof and ground the sound meets.

use vstd::prelude::*;
use crate::text::{decimal_string, decimal_text, has_substring, str_equals};

verus! {

/// What the tower's walls are built of, as far as absorption and diffusion go.
#[derive(Debug, Clone, Copy, PartialEq, Eq, Structural)]
pub enum WallMaterial {
    Brick,
    Stone,
    Wood,
    Concrete,
    Adobe,
    Other,
}

/// The shape of the tower's roof, as far as its reflection goes.
#[derive(Debug, Clone, Copy, PartialEq, Eq, Structural)]
pub enum RoofShape {
    Dome,
    Gable,
    Flat,
    Pagoda,
    Hipped,
    Other,
}

/// The surface around the tower, as far as ground reflection goes.
#[derive(Debug, Clone, Copy, PartialEq, Eq, Structural)]
pub enum GroundSurface {
    Grass,
    Soil,
    Asphalt,
    Concrete,
    Water,
    Marble,
    Other,
}

/// The wall material a name denotes; unknown names are another material.
pub open spec fn wall_material_named(name: Seq<char>) -> WallMaterial {
    if name == "brick"@ {
        WallMaterial::Brick
    } else if name == "stone"@ {
        WallMaterial::Stone
    } else if name == "wood"@ {
        WallMaterial::Wood
    } else if name == "concrete"@ {
        WallMaterial::Concrete
    } else if name == "adobe"@ {
        WallMaterial::Adobe
    } else {
        WallMaterial::Other
    }
}

/// The roof shape a style name denotes, in English or as the Chinese roof
/// type; unknown styles are another shape.
pub open spec fn roof_shape_named(style: Seq<char>) -> RoofShape {
    if style == "dome"@ || style == "穹顶"@ || style == "圆顶"@ {
        RoofShape::Dome
    } else if style == "gable"@ || style == "山墙"@ || style == "硬山"@ || style == "悬山"@ {
        RoofShape::Gable
    } else if style == "flat"@ || style == "平顶"@ {
        RoofShape::Flat
    } else if style == "pagoda"@ || style == "塔状"@ || style == "攒尖"@ {
        RoofShape::Pagoda
    } else if style == "hipped"@ || style == "庑殿"@ || style == "歇山"@ || style == "重檐庑殿顶"@ || style == "歇山顶"@ || style == "庑殿顶"@ || style == "十字歇山顶"@ {
        RoofShape::Hipped
    } else {
        RoofShape::Other
    }
}

/// The ground surface a name denotes; unknown names are another surface.
pub open spec fn ground_surface_named(name: Seq<char>) -> GroundSurface {
    if name == "grass"@ {
        GroundSurface::Grass
    } else if name == "soil"@ {
        GroundSurface::Soil
    } else if name == "asphalt"@ {
        GroundSurface::Asphalt
    } else if name == "concrete"@ {
        GroundSurface::Concrete
    } else if name == "water"@ {
        GroundSurface::Water
    } else if name == "marble"@ {
        GroundSurface::Marble
    } else {
        GroundSurface::Other
    }
}

/// Each wall material the acoustics know is recognised by its name, and no
/// other name is taken for a known material.
pub proof fn lemma_wall_names_recognised()
    ensures
        forall|name: Seq<char>| #[trigger] wall_material_named(name) != WallMaterial::Other ==> (name == "brick"@ || name == "stone"@ || name == "wood"@ || name == "concrete"@ || name == "adobe"@),
        wall_material_named("brick"@) == WallMaterial::Brick,
        wall_material_named("stone"@) == WallMaterial::Stone,
        wall_material_named("wood"@) == WallMaterial::Wood,
        wall_material_named("concrete"@) == WallMaterial::Concrete,
        wall_material_named("adobe"@) == WallMaterial::Adobe,
{
    reveal_strlit("brick");
    assert("brick"@.len() == 5);
    reveal_strlit("stone");
    assert("stone"@.len() == 5);
    reveal_strlit("wood");
    assert("wood"@.len() == 4);
    reveal_strlit("concrete");
    assert("concrete"@.len() == 8);
    reveal_strlit("adobe");
    assert("adobe"@.len() == 5);
    assert("stone"@[0] != "brick"@[0]);
    assert("stone"@ != "brick"@);
    assert("wood"@ != "brick"@);
    assert("wood"@ != "stone"@);
    assert("concrete"@ != "brick"@);
    assert("concrete"@ != "stone"@);
    assert("concrete"@ != "wood"@);
    assert("adobe"@[0] != "brick"@[0]);
    assert("adobe"@ != "brick"@);
    assert("adobe"@[0] != "stone"@[0]);
    assert("adobe"@ != "stone"@);
    assert("adobe"@ != "wood"@);
    assert("adobe"@ != "concrete"@);
}

/// Every listed roof style, English or Chinese, is recognised as its shape:
/// domes, gables, flat roofs, pagoda roofs, and the hipped family
/// (庑殿, 歇山 and their double-eave and cross forms); no other style is
/// taken for a known shape.
pub proof fn lemma_roof_styles_recognised()
    ensures
        forall|style: Seq<char>| #[trigger] roof_shape_named(style) != RoofShape::Other ==> (style == "dome"@ || style == "穹顶"@ || style == "圆顶"@ || style == "gable"@ || style == "山墙"@ || style == "硬山"@ || style == "悬山"@ || style == "flat"@ || style == "平顶"@ || style == "pagoda"@ || style == "塔状"@ || style == "攒尖"@ || style == "hipped"@ || style == "庑殿"@ || style == "歇山"@ || style == "重檐庑殿顶"@ || style == "歇山顶"@ || style == "庑殿顶"@ || style == "十字歇山顶"@),
        roof_shape_named("dome"@) == RoofShape::Dome,
        roof_shape_named("穹顶"@) == RoofShape::Dome,
        roof_shape_named("圆顶"@) == RoofShape::Dome,
        roof_shape_named("gable"@) == RoofShape::Gable,
        roof_shape_named("山墙"@) == RoofShape::Gable,
        roof_shape_named("硬山"@) == RoofShape::Gable,
        roof_shape_named("悬山"@) == RoofShape::Gable,
        roof_shape_named("flat"@) == RoofShape::Flat,
        roof_shape_named("平顶"@) == RoofShape::Flat,
        roof_shape_named("pagoda"@) == RoofShape::Pagoda,
        roof_shape_named("塔状"@) == RoofShape::Pagoda,
        roof_shape_named("攒尖"@) == RoofShape::Pagoda,
        roof_shape_named("hipped"@) == RoofShape::Hipped,
        roof_shape_named("庑殿"@) == RoofShape::Hipped,
        roof_shape_named("歇山"@) == RoofShape::Hipped,
        roof_shape_named("重檐庑殿顶"@) == RoofShape::Hipped,
        roof_shape_named("歇山顶"@) == RoofShape::Hipped,
        roof_shape_named("庑殿顶"@) == RoofShape::Hipped,
        roof_shape_named("十字歇山顶"@) == RoofShape::Hipped,
{
    reveal_strlit("dome");
    assert("dome"@.len() == 4);
    reveal_strlit("穹顶");
    assert("穹顶"@.len() == 2);
    reveal_strlit("圆顶");
    assert("圆顶"@.len() == 2);
    reveal_strlit("gable");
    assert("gable"@.len() == 5);
    reveal_strlit("山墙");
    assert("山墙"@.len() == 2);
    reveal_strlit("硬山");
    assert("硬山"@.len() == 2);
    reveal_strlit("悬山");
    assert("悬山"@.len() == 2);
    reveal_strlit("flat");
    assert("flat"@.len() == 4);
    reveal_strlit("平顶");
    assert("平顶"@.len() == 2);
    reveal_strlit("pagoda");
    assert("pagoda"@.len() == 6);
    reveal_strlit("塔状");
    assert("塔状"@.len() == 2);
    reveal_strlit("攒尖");
    assert("攒尖"@.len() == 2);
    reveal_strlit("hipped");
    assert("hipped"@.len() == 6);
    reveal_strlit("庑殿");
    assert("庑殿"@.len() == 2);
    reveal_strlit("歇山");
    assert("歇山"@.len() == 2);
    reveal_strlit("重檐庑殿顶");
    assert("重檐庑殿顶"@.len() == 5);
    reveal_strlit("歇山顶");
    assert("歇山顶"@.len() == 3);
    reveal_strlit("庑殿顶");
    assert("庑殿顶"@.len() == 3);
    reveal_strlit("十字歇山顶");
    assert("十字歇山顶"@.len() == 5);
    assert("gable"@ != "dome"@);
    assert("gable"@ != "穹顶"@);
    assert("gable"@ != "圆顶"@);
    assert("山墙"@ != "dome"@);
    assert("山墙"@[0] != "穹顶"@[0]);
    assert("山墙"@ != "穹顶"@);
    assert("山墙"@[0] != "圆顶"@[0]);
    assert("山墙"@ != "圆顶"@);
    assert("硬山"@ != "dome"@);
    assert("硬山"@[0] != "穹顶"@[0]);
    assert("硬山"@ != "穹顶"@);
    assert("硬山"@[0] != "圆顶"@[0]);
    assert("硬山"@ != "圆顶"@);
    assert("悬山"@ != "dome"@);
    assert("悬山"@[0] != "穹顶"@[0]);
    assert("悬山"@ != "穹顶"@);
    assert("悬山"@[0] != "圆顶"@[0]);
    assert("悬山"@ != "圆顶"@);
    assert("flat"@[0] != "dome"@[0]);
    assert("flat"@ != "dome"@);
    assert("flat"@ != "穹顶"@);
    assert("flat"@ != "圆顶"@);
    assert("flat"@ != "gable"@);
    assert("flat"@ != "山墙"@);
    assert("flat"@ != "硬山"@);
    assert("flat"@ != "悬山"@);
    assert("平顶"@ != "dome"@);
    assert("平顶"@[0] != "穹顶"@[0]);
    assert("平顶"@ != "穹顶"@);
    assert("平顶"@[0] != "圆顶"@[0]);
    assert("平顶"@ != "圆顶"@);
    assert("平顶"@ != "gable"@);
    assert("平顶"@[0] != "山墙"@[0]);
    assert("平顶"@ != "山墙"@);
    assert("平顶"@[0] != "硬山"@[0]);
    assert("平顶"@ != "硬山"@);
    assert("平顶"@[0] != "悬山"@[0]);
    assert("平顶"@ != "悬山"@);
    assert("pagoda"@ != "dome"@);
    assert("pagoda"@ != "穹顶"@);
    assert("pagoda"@ != "圆顶"@);
    assert("pagoda"@ != "gable"@);
    assert("pagoda"@ != "山墙"@);
    assert("pagoda"@ != "硬山"@);
    assert("pagoda"@ != "悬山"@);
    assert("pagoda"@ != "flat"@);
    assert("pagoda"@ != "平顶"@);
    assert("塔状"@ != "dome"@);
    assert("塔状"@[0] != "穹顶"@[0]);
    assert("塔状"@ != "穹顶"@);
    assert("塔状"@[0] != "圆顶"@[0]);
    assert("塔状"@ != "圆顶"@);
    assert("塔状"@ != "gable"@);
    assert("塔状"@[0] != "山墙"@[0]);
    assert("塔状"@ != "山墙"@);
    assert("塔状"@[0] != "硬山"@[0]);
    assert("塔状"@ != "硬山"@);
    assert("塔状"@[0] != "悬山"@[0]);
    assert("塔状"@ != "悬山"@);
    assert("塔状"@ != "flat"@);
    assert("塔状"@[0] != "平顶"@[0]);
    assert("塔状"@ != "平顶"@);
    assert("攒尖"@ != "dome"@);
    assert("攒尖"@[0] != "穹顶"@[0]);
    assert("攒尖"@ != "穹顶"@);
    assert("攒尖"@[0] != "圆顶"@[0]);
    assert("攒尖"@ != "圆顶"@);
    assert("攒尖"@ != "gable"@);
    assert("攒尖"@[0] != "山墙"@[0]);
    assert("攒尖"@ != "山墙"@);
    assert("攒尖"@[0] != "硬山"@[0]);
    assert("攒尖"@ != "硬山"@);
    assert("攒尖"@[0] != "悬山"@[0]);
    assert("攒尖"@ != "悬山"@);
    assert("攒尖"@ != "flat"@);
    assert("攒尖"@[0] != "平顶"@[0]);
    assert("攒尖"@ != "平顶"@);
    assert("hipped"@ != "dome"@);
    assert("hipped"@ != "穹顶"@);
    assert("hipped"@ != "圆顶"@);
    assert("hipped"@ != "gable"@);
    assert("hipped"@ != "山墙"@);
    assert("hipped"@ != "硬山"@);
    assert("hipped"@ != "悬山"@);
    assert("hipped"@ != "flat"@);
    assert("hipped"@ != "平顶"@);
    assert("hipped"@[0] != "pagoda"@[0]);
    assert("hipped"@ != "pagoda"@);
    assert("hipped"@ != "塔状"@);
    assert("hipped"@ != "攒尖"@);
    assert("庑殿"@ != "dome"@);
    assert("庑殿"@[0] != "穹顶"@[0]);
    assert("庑殿"@ != "穹顶"@);
    assert("庑殿"@[0] != "圆顶"@[0]);
    assert("庑殿"@ != "圆顶"@);
    assert("庑殿"@ != "gable"@);
    assert("庑殿"@[0] != "山墙"@[0]);
    assert("庑殿"@ != "山墙"@);
    assert("庑殿"@[0] != "硬山"@[0]);
    assert("庑殿"@ != "硬山"@);
    assert("庑殿"@[0] != "悬山"@[0]);
    assert("庑殿"@ != "悬山"@);
    assert("庑殿"@ != "flat"@);
    assert("庑殿"@[0] != "平顶"@[0]);
    assert("庑殿"@ != "平顶"@);
    assert("庑殿"@ != "pagoda"@);
    assert("庑殿"@[0] != "塔状"@[0]);
    assert("庑殿"@ != "塔状"@);
    assert("庑殿"@[0] != "攒尖"@[0]);
    assert("庑殿"@ != "攒尖"@);
    assert("歇山"@ != "dome"@);
    assert("歇山"@[0] != "穹顶"@[0]);
    assert("歇山"@ != "穹顶"@);
    assert("歇山"@[0] != "圆顶"@[0]);
    assert("歇山"@ != "圆顶"@);
    assert("歇山"@ != "gable"@);
    assert("歇山"@[0] != "山墙"@[0]);
    assert("歇山"@ != "山墙"@);
    assert("歇山"@[0] != "硬山"@[0]);
    assert("歇山"@ != "硬山"@);
    assert("歇山"@[0] != "悬山"@[0]);
    assert("歇山"@ != "悬山"@);
    assert("歇山"@ != "flat"@);
    assert("歇山"@[0] != "平顶"@[0]);
    assert("歇山"@ != "平顶"@);
    assert("歇山"@ != "pagoda"@);
    assert("歇山"@[0] != "塔状"@[0]);
    assert("歇山"@ != "塔状"@);
    assert("歇山"@[0] != "攒尖"@[0]);
    assert("歇山"@ != "攒尖"@);
    assert("重檐庑殿顶"@ != "dome"@);
    assert("重檐庑殿顶"@ != "穹顶"@);
    assert("重檐庑殿顶"@ != "圆顶"@);
    assert("重檐庑殿顶"@[0] != "gable"@[0]);
    assert("重檐庑殿顶"@ != "gable"@);
    assert("重檐庑殿顶"@ != "山墙"@);
    assert("重檐庑殿顶"@ != "硬山"@);
    assert("重檐庑殿顶"@ != "悬山"@);
    assert("重檐庑殿顶"@ != "flat"@);
    assert("重檐庑殿顶"@ != "平顶"@);
    assert("重檐庑殿顶"@ != "pagoda"@);
    assert("重檐庑殿顶"@ != "塔状"@);
    assert("重檐庑殿顶"@ != "攒尖"@);
    assert("歇山顶"@ != "dome"@);
    assert("歇山顶"@ != "穹顶"@);
    assert("歇山顶"@ != "圆顶"@);
    assert("歇山顶"@ != "gable"@);
    assert("歇山顶"@ != "山墙"@);
    assert("歇山顶"@ != "硬山"@);
    assert("歇山顶"@ != "悬山"@);
    assert("歇山顶"@ != "flat"@);
    assert("歇山顶"@ != "平顶"@);
    assert("歇山顶"@ != "pagoda"@);
    assert("歇山顶"@ != "塔状"@);
    assert("歇山顶"@ != "攒尖"@);
    assert("庑殿顶"@ != "dome"@);
    assert("庑殿顶"@ != "穹顶"@);
    assert("庑殿顶"@ != "圆顶"@);
    assert("庑殿顶"@ != "gable"@);
    assert("庑殿顶"@ != "山墙"@);
    assert("庑殿顶"@ != "硬山"@);
    assert("庑殿顶"@ != "悬山"@);
    assert("庑殿顶"@ != "flat"@);
    assert("庑殿顶"@ != "平顶"@);
    assert("庑殿顶"@ != "pagoda"@);
    assert("庑殿顶"@ != "塔状"@);
    assert("庑殿顶"@ != "攒尖"@);
    assert("十字歇山顶"@ != "dome"@);
    assert("十字歇山顶"@ != "穹顶"@);
    assert("十字歇山顶"@ != "圆顶"@);
    assert("十字歇山顶"@[0] != "gable"@[0]);
    assert("十字歇山顶"@ != "gable"@);
    assert("十字歇山顶"@ != "山墙"@);
    assert("十字歇山顶"@ != "硬山"@);
    assert("十字歇山顶"@ != "悬山"@);
    assert("十字歇山顶"@ != "flat"@);
    assert("十字歇山顶"@ != "平顶"@);
    assert("十字歇山顶"@ != "pagoda"@);
    assert("十字歇山顶"@ != "塔状"@);
    assert("十字歇山顶"@ != "攒尖"@);
}

/// Each ground surface the acoustics know is recognised by its name, and no
/// other name is taken for a known surface.
pub proof fn lemma_ground_names_recognised()
    ensures
        forall|name: Seq<char>| #[trigger] ground_surface_named(name) != GroundSurface::Other ==> (name == "grass"@ || name == "soil"@ || name == "asphalt"@ || name == "concrete"@ || name == "water"@ || name == "marble"@),
        ground_surface_named("grass"@) == GroundSurface::Grass,
        ground_surface_named("soil"@) == GroundSurface::Soil,
        ground_surface_named("asphalt"@) == GroundSurface::Asphalt,
        ground_surface_named("concrete"@) == GroundSurface::Concrete,
        ground_surface_named("water"@) == GroundSurface::Water,
        ground_surface_named("marble"@) == GroundSurface::Marble,
{
    reveal_strlit("grass");
    assert("grass"@.len() == 5);
    reveal_strlit("soil");
    assert("soil"@.len() == 4);
    reveal_strlit("asphalt");
    assert("asphalt"@.len() == 7);
    reveal_strlit("concrete");
    assert("concrete"@.len() == 8);
    reveal_strlit("water");
    assert("water"@.len() == 5);
    reveal_strlit("marble");
    assert("marble"@.len() == 6);
    assert("soil"@ != "grass"@);
    assert("asphalt"@ != "grass"@);
    assert("asphalt"@ != "soil"@);
    assert("concrete"@ != "grass"@);
    assert("concrete"@ != "soil"@);
    assert("concrete"@ != "asphalt"@);
    assert("water"@[0] != "grass"@[0]);
    assert("water"@ != "grass"@);
    assert("water"@ != "soil"@);
    assert("water"@ != "asphalt"@);
    assert("water"@ != "concrete"@);
    assert("marble"@ != "grass"@);
    assert("marble"@ != "soil"@);
    assert("marble"@ != "asphalt"@);
    assert("marble"@ != "concrete"@);
    assert("marble"@ != "water"@);
}

impl WallMaterial {
    /// The wall material a name denotes, matched exactly.
    pub fn from_name(name: &str) -> (material: WallMaterial)
        ensures
            material == wall_material_named(name@),
    {
        if str_equals(name, "brick") {
            WallMaterial::Brick
        } else if str_equals(name, "stone") {
            WallMaterial::Stone
        } else if str_equals(name, "wood") {
            WallMaterial::Wood
        } else if str_equals(name, "concrete") {
            WallMaterial::Concrete
        } else if str_equals(name, "adobe") {
            WallMaterial::Adobe
        } else {
            WallMaterial::Other
        }
    }
}

impl RoofShape {
    /// The roof shape a style name denotes, matched exactly.
    pub fn from_style(style: &str) -> (shape: RoofShape)
        ensures
            shape == roof_shape_named(style@),
    {
        if str_equals(style, "dome") || str_equals(style, "穹顶") || str_equals(style, "圆顶") {
            RoofShape::Dome
        } else if str_equals(style, "gable") || str_equals(style, "山墙") || str_equals(style, "硬山") || str_equals(style, "悬山") {
            RoofShape::Gable
        } else if str_equals(style, "flat") || str_equals(style, "平顶") {
            RoofShape::Flat
        } else if str_equals(style, "pagoda") || str_equals(style, "塔状") || str_equals(style, "攒尖") {
            RoofShape::Pagoda
        } else if str_equals(style, "hipped") || str_equals(style, "庑殿") || str_equals(style, "歇山") || str_equals(style, "重檐庑殿顶") || str_equals(style, "歇山顶") || str_equals(style, "庑殿顶") || str_equals(style, "十字歇山顶") {
            RoofShape::Hipped
        } else {
            RoofShape::Other
        }
    }
}

impl GroundSurface {
    /// The ground surface a name denotes, matched exactly.
    pub fn from_name(name: &str) -> (surface: GroundSurface)
        ensures
            surface == ground_surface_named(name@),
    {
        if str_equals(name, "grass") {
            GroundSurface::Grass
        } else if str_equals(name, "soil") {
            GroundSurface::Soil
        } else if str_equals(name, "asphalt") {
            GroundSurface::Asphalt
        } else if str_equals(name, "concrete") {
            GroundSurface::Concrete
        } else if str_equals(name, "water") {
            GroundSurface::Water
        } else if str_equals(name, "marble") {
            GroundSurface::Marble
        } else {
            GroundSurface::Other
        }
    }
}

/// The advice for a tower whose walls are of `material`, where it has one:
/// wooden walls absorb too much, concrete ones reflect too much.
pub open spec fn spec_wall_material_tip(material: WallMaterial) -> Option<Seq<char>> {
    match material {
        WallMaterial::Wood => Some("木质墙体中高频吸收较大，如追求钟声悠远感，建议外墙改用砖石材料，内部可保留木质装饰"@),
        WallMaterial::Concrete => Some("混凝土墙面反射过强，可能产生驻波，建议在钟楼内部适当悬挂布幔或设置扩散体以优化混响时间"@),
        _ => None,
    }
}

/// The advice for a tower whose walls are of `material`, where it has one.
pub fn wall_material_tip(material: WallMaterial) -> (tip: Option<&'static str>)
    ensures
        match tip {
            Some(t) => spec_wall_material_tip(material) == Some(t@),
            None => spec_wall_material_tip(material).is_none(),
        },
{
    match material {
        WallMaterial::Wood => Some("木质墙体中高频吸收较大，如追求钟声悠远感，建议外墙改用砖石材料，内部可保留木质装饰"),
        WallMaterial::Concrete => Some("混凝土墙面反射过强，可能产生驻波，建议在钟楼内部适当悬挂布幔或设置扩散体以优化混响时间"),
        _ => None,
    }
}

/// Fewest window openings for an even sound coverage all around the tower.
pub const MIN_EVEN_WINDOW_COUNT: u32 = 4;

/// The advice for a tower with fewer than four windows: open four or eight
/// symmetric ones.
pub open spec fn spec_window_count_tip(window_count: u32) -> Option<Seq<char>> {
    if window_count < MIN_EVEN_WINDOW_COUNT {
        Some("当前仅"@ + decimal_text(window_count as nat) + "面开窗，建议改为四面或八面对称开窗，以获得更均匀的360度覆盖，消除声学死角"@)
    } else {
        None
    }
}

/// The advice for a tower with too few windows, where it applies.
pub fn window_count_tip(window_count: u32) -> (tip: Option<String>)
    ensures
        match tip {
            Some(t) => spec_window_count_tip(window_count) == Some(t@),
            None => spec_window_count_tip(window_count).is_none(),
        },
{
    if window_count < MIN_EVEN_WINDOW_COUNT {
        let mut tip = "当前仅".to_string();
        let count = decimal_string(window_count as u64);
        tip.append(count.as_str());
        tip.append("面开窗，建议改为四面或八面对称开窗，以获得更均匀的360度覆盖，消除声学死角");
        Some(tip)
    } else {
        None
    }
}

/// Only wooden and concrete walls draw advice about the wall material.
pub proof fn lemma_wall_tip_only_wood_and_concrete(material: WallMaterial)
    ensures
        spec_wall_material_tip(material).is_some() <==> (material == WallMaterial::Wood || material == WallMaterial::Concrete),
{
}

/// A tower draws the window advice exactly when it has fewer than four
/// windows, and the advice states its window count.
pub proof fn lemma_window_tip_below_four(window_count: u32)
    ensures
        spec_window_count_tip(window_count).is_some() <==> window_count < 4,
        spec_window_count_tip(window_count).is_some() ==>
            has_substring(spec_window_count_tip(window_count).unwrap(), decimal_text(window_count as nat)),
{
    if window_count < 4 {
        let t = spec_window_count_tip(window_count).unwrap();
        let d = decimal_text(window_count as nat);
        let i = "当前仅"@.len() as int;
        assert(t.subrange(i, i + d.len()) =~= d);
    }
}

} // verus!
