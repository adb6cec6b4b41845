use vbsp::entity::{
    parse_bool, parse_i32, parse_u32, parse_u8, split_sp, Entities, Entity, LightSpotStyle,
    RawEntity, RenderMode,
};
use vbsp::{EntityParseError, Vector};

fn entities_of(text: &[u8]) -> Entities {
    Entities { entities: text.to_vec() }
}

#[test]
fn light_entity_resolves_with_typed_fields() {
    let text = b"{\"classname\" \"light\" \"origin\" \"1 2 3\" \"_light\" \"255 255 255 200\"}";
    let entities = entities_of(text);
    let raw = entities.iter();
    assert_eq!(raw.len(), 1);
    match raw[0].parse().unwrap() {
        Entity::Light(light) => {
            assert_eq!(light.origin, Vector { x: 1, y: 2, z: 3 });
            assert_eq!(light.light, [255, 255, 255, 200]);
        }
        other => panic!("expected a light, got {:?}", other),
    }
}

#[test]
fn unknown_classname_keeps_raw_entity_and_properties() {
    let text = b"{\"classname\" \"made_up_thing\" \"first\" \"a\" \"second\" \"b\"}";
    let entities = entities_of(text);
    let raw = entities.iter();
    let parsed = raw[0].parse().unwrap();
    let inner: RawEntity = match parsed {
        Entity::Unknown(inner) => inner,
        other => panic!("expected the unknown fallback, got {:?}", other),
    };
    let props = inner.properties();
    let as_pairs: Vec<(&[u8], &[u8])> = props;
    assert_eq!(
        as_pairs,
        vec![
            (&b"classname"[..], &b"made_up_thing"[..]),
            (&b"first"[..], &b"a"[..]),
            (&b"second"[..], &b"b"[..]),
        ]
    );
}

#[test]
fn array_property_with_too_few_tokens_is_element_count_error() {
    let text = b"{\"classname\" \"light\" \"origin\" \"1 2\" \"_light\" \"255 255 255 200\"}";
    let entities = entities_of(text);
    let raw = entities.iter();
    assert!(matches!(raw[0].parse(), Err(EntityParseError::ElementCount)));

    let text = b"{\"classname\" \"light\" \"origin\" \"1 2 3\" \"_light\" \"255 255\"}";
    let entities = entities_of(text);
    let raw = entities.iter();
    assert!(matches!(raw[0].parse(), Err(EntityParseError::ElementCount)));
}

#[test]
fn malformed_array_token_is_a_number_error_never_padded() {
    let text = b"{\"classname\" \"light\" \"origin\" \"1 x 3\" \"_light\" \"255 255 255 200\"}";
    let entities = entities_of(text);
    let raw = entities.iter();
    assert!(matches!(raw[0].parse(), Err(EntityParseError::ParseInt)));
}

#[test]
fn missing_classname_is_reported_by_name() {
    let text = b"{\"origin\" \"1 2 3\"}";
    let entities = entities_of(text);
    let raw = entities.iter();
    match raw[0].parse() {
        Err(EntityParseError::NoSuchProperty(k)) => assert_eq!(k, b"classname".to_vec()),
        other => panic!("expected missing classname, got {:?}", other),
    }
}

#[test]
fn missing_required_property_is_reported_by_name() {
    let text = b"{\"classname\" \"light\" \"_light\" \"255 255 255 200\"}";
    let entities = entities_of(text);
    let raw = entities.iter();
    match raw[0].parse() {
        Err(EntityParseError::NoSuchProperty(k)) => assert_eq!(k, b"origin".to_vec()),
        other => panic!("expected missing origin, got {:?}", other),
    }
}

#[test]
fn first_occurrence_of_duplicate_key_wins() {
    let text = b"{\"classname\" \"x\" \"key\" \"first\" \"key\" \"later\"}";
    let entities = entities_of(text);
    let raw = entities.iter();
    assert_eq!(raw[0].prop(b"key").unwrap(), b"first");
}

#[test]
fn block_iteration_is_forward_only_and_permissive() {
    // two complete blocks, then an unterminated one: the walk just ends
    let text = b"junk {\"a\" \"1\"} between {\"b\" \"2\"} {\"c\" ";
    let entities = entities_of(text);
    let raw = entities.iter();
    assert_eq!(raw.len(), 2);
    assert_eq!(raw[0].prop(b"a").unwrap(), b"1");
    assert_eq!(raw[1].prop(b"b").unwrap(), b"2");
    // restartable: a fresh walk gives the same blocks
    let again = entities.iter();
    assert_eq!(again.len(), 2);
}

#[test]
fn worldspawn_and_other_records_extract() {
    let text = b"{\"classname\" \"worldspawn\" \"world_mins\" \"-1 -2 -3\" \
        \"detailvbsp\" \"detail.vbsp\" \"detailmaterial\" \"detail/detailsprites\" \
        \"skyname\" \"sky_day01\" \"mapversion\" \"42\"}";
    let entities = entities_of(text);
    let raw = entities.iter();
    match raw[0].parse().unwrap() {
        Entity::WorldSpawn(ws) => {
            assert_eq!(ws.min, Vector { x: -1, y: -2, z: -3 });
            assert_eq!(ws.max, Vector { x: -1, y: -2, z: -3 });
            assert_eq!(ws.skybox, b"sky_day01");
            assert_eq!(ws.version, 42);
            assert!(ws.comment.is_none());
        }
        other => panic!("expected worldspawn, got {:?}", other),
    }
}

#[test]
fn ammo_and_health_packs_follow_the_name_table() {
    let tag = |class: &str| -> &'static str {
        let text = format!("{{\"classname\" \"{}\" \"origin\" \"1 1 1\"}}", class);
        let entities = Entities { entities: text.into_bytes() };
        let raw = entities.iter();
        match raw[0].parse().unwrap() {
            Entity::AmmoPackSmall(_) => "AmmoPackSmall",
            Entity::AmmoPackMedium(_) => "AmmoPackMedium",
            Entity::AmmoPackFull(_) => "AmmoPackFull",
            Entity::HealthPackSmall(_) => "HealthPackSmall",
            Entity::HealthPackMedium(_) => "HealthPackMedium",
            Entity::HealthPackFull(_) => "HealthPackFull",
            _ => "other",
        }
    };
    assert_eq!(tag("item_ammopack_small"), "AmmoPackSmall");
    assert_eq!(tag("item_ammopack_medium"), "AmmoPackMedium");
    assert_eq!(tag("item_ammopack_full"), "HealthPackFull");
    assert_eq!(tag("item_healthkit_small"), "HealthPackSmall");
    assert_eq!(tag("item_healthkit_medium"), "HealthPackMedium");
    assert_eq!(tag("item_healthkit_full"), "AmmoPackFull");
}

#[test]
fn default_marked_fields_tolerate_absence_but_not_malformation() {
    // hud_type absent: defaults to zero
    let text = b"{\"classname\" \"tf_gamerules\" \"origin\" \"0 0 0\"}";
    let entities = entities_of(text);
    match entities.iter()[0].parse().unwrap() {
        Entity::GameRules(gr) => {
            assert_eq!(gr.hud_type, 0);
            assert!(!gr.ctf_overtime);
        }
        other => panic!("expected gamerules, got {:?}", other),
    }
    // hud_type present but malformed: an error
    let text = b"{\"classname\" \"tf_gamerules\" \"origin\" \"0 0 0\" \"hud_type\" \"nope\"}";
    let entities = entities_of(text);
    assert!(matches!(entities.iter()[0].parse(), Err(EntityParseError::ParseInt)));
}

#[test]
fn boolean_properties_are_not_equal_to_literal_zero() {
    assert!(!parse_bool(b"0"));
    assert!(parse_bool(b"1"));
    assert!(parse_bool(b"00"));
    assert!(parse_bool(b"true"));
    assert!(parse_bool(b""));
}

#[test]
fn numeric_parsing_is_exact() {
    assert_eq!(parse_u32(b"123"), Ok(123));
    assert_eq!(parse_u32(b"+123"), Ok(123));
    assert_eq!(parse_u32(b"4294967295"), Ok(u32::MAX));
    assert_eq!(parse_u32(b"4294967296"), Err(EntityParseError::ParseInt));
    assert_eq!(parse_u32(b""), Err(EntityParseError::ParseInt));
    assert_eq!(parse_u32(b"+"), Err(EntityParseError::ParseInt));
    assert_eq!(parse_u32(b"-1"), Err(EntityParseError::ParseInt));
    assert_eq!(parse_u32(b"1 2"), Err(EntityParseError::ParseInt));

    assert_eq!(parse_u8(b"255"), Ok(255));
    assert_eq!(parse_u8(b"256"), Err(EntityParseError::ParseInt));

    assert_eq!(parse_i32(b"-2147483648"), Ok(i32::MIN));
    assert_eq!(parse_i32(b"2147483647"), Ok(i32::MAX));
    assert_eq!(parse_i32(b"2147483648"), Err(EntityParseError::ParseInt));
    assert_eq!(parse_i32(b"-2147483649"), Err(EntityParseError::ParseInt));
    assert_eq!(parse_i32(b"-0"), Ok(0));
}

#[test]
fn split_on_single_spaces_keeps_empty_tokens() {
    let toks = split_sp(b"1  2");
    let toks: Vec<&[u8]> = toks;
    assert_eq!(toks, vec![&b"1"[..], &b""[..], &b"2"[..]]);
    assert_eq!(split_sp(b""), vec![&b""[..]]);
}

#[test]
fn render_mode_parses_the_closed_enumeration() {
    assert!(matches!(RenderMode::parse(b"0"), Ok(RenderMode::Normal)));
    assert!(matches!(RenderMode::parse(b"3"), Ok(RenderMode::Glow)));
    assert!(matches!(RenderMode::parse(b"10"), Ok(RenderMode::SkipRender)));
    assert_eq!(
        RenderMode::parse(b"11"),
        Err(EntityParseError::InvalidEnumValue("RenderMode"))
    );
    assert_eq!(RenderMode::parse(b"x"), Err(EntityParseError::ParseInt));
}

#[test]
fn light_spot_style_parses_the_closed_enumeration() {
    assert!(matches!(LightSpotStyle::parse(b"0"), Ok(LightSpotStyle::Normal)));
    assert!(matches!(
        LightSpotStyle::parse(b"10"),
        Ok(LightSpotStyle::FlourescentFlicker)
    ));
    assert!(matches!(
        LightSpotStyle::parse(b"12"),
        Ok(LightSpotStyle::UnderwaterLightMutation)
    ));
    assert_eq!(
        LightSpotStyle::parse(b"13"),
        Err(EntityParseError::InvalidEnumValue("LightSpotStyle"))
    );
}

#[test]
fn trigger_multiple_requires_wait_and_wraps_it() {
    let text = b"{\"classname\" \"trigger_multiple\" \"model\" \"*1\" \
        \"origin\" \"0 0 0\" \"wait\" \"7\"}";
    let entities = entities_of(text);
    match entities.iter()[0].parse().unwrap() {
        Entity::TriggerMultiple(tm) => {
            assert_eq!(tm.wait, Some(7));
            assert_eq!(tm.model, b"*1");
            assert!(tm.filter.is_none());
        }
        other => panic!("expected trigger_multiple, got {:?}", other),
    }
    // wait carries no default: its absence is an error naming it
    let text = b"{\"classname\" \"trigger_multiple\" \"model\" \"*1\" \"origin\" \"0 0 0\"}";
    let entities = entities_of(text);
    match entities.iter()[0].parse() {
        Err(EntityParseError::NoSuchProperty(k)) => assert_eq!(k, b"wait".to_vec()),
        other => panic!("expected missing wait, got {:?}", other),
    }
}
