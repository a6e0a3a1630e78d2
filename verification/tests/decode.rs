//! Tests of the per-entity record decoders and their flag/mask tables.

use javardry_spoiler::class;
use javardry_spoiler::item;
use javardry_spoiler::masks;
use javardry_spoiler::monster;
use javardry_spoiler::race;
use javardry_spoiler::spell;
use javardry_spoiler::stat;
use javardry_spoiler::util;
use javardry_spoiler::FieldError;
use javardry_spoiler::ItemKind;
use javardry_spoiler::MonsterKind;

fn race_fields() -> Vec<String> {
    vec![
        String::from("Human"),
        String::from("Hu"),
        String::from("8,8,8,8,8,8"),
        String::from("80"),
        String::from("0"),
        String::from("1"),
        String::from("0"),
        String::from(""),
        String::from(""),
        String::from(""),
        String::from(""),
        String::from("plain folk"),
        String::from(""),
        String::from("0"),
    ]
}

#[test]
fn stat_record_decodes() {
    let s = stat::parse(0, "strength<>STR<>1<>-2<>false<>x<>y<>true").expect("well-formed");
    assert_eq!(s.id, 0);
    assert_eq!(s.name.as_str(), "strength");
    assert_eq!(s.name_abbr.as_str(), "STR");
    assert_eq!(s.sex_bonus, [1, -2]);
    assert!(!s.fixed_on_create);
    assert!(s.hide);
}

#[test]
fn stat_record_wrong_arity_fails() {
    let r = stat::parse(0, "a<>b<>1<>2<>false<>x<>y");
    assert_eq!(r.err().expect("must fail"), FieldError::Arity { expected: 8, actual: 7 });
}

#[test]
fn stat_record_bad_number_fails() {
    let r = stat::parse(0, "a<>b<>one<>2<>false<>x<>y<>true");
    assert_eq!(r.err().expect("must fail"), FieldError::Number);
}

#[test]
fn race_thirteen_fields_fail_fourteen_succeed() {
    let fields = race_fields();
    let thirteen = fields[..13].join("<>");
    let r = race::parse(0, &thirteen);
    assert_eq!(r.err().expect("must fail"), FieldError::Arity { expected: 14, actual: 13 });
    let fourteen = fields.join("<>");
    let rc = race::parse(0, &fourteen).expect("well-formed");
    assert_eq!(rc.name.as_str(), "Human");
    assert_eq!(rc.stats, vec![8, 8, 8, 8, 8, 8]);
    assert_eq!(rc.lifetime, 80);
    assert_eq!(rc.resist_mask.bits(), 0);
}

#[test]
fn generic_resist_digit_ten_is_fire() {
    let m = util::parse_resist_mask("a").expect("valid digit");
    assert_eq!(m.bits(), masks::RESIST_FIRE);
}

#[test]
fn generic_resist_rejects_undefined_bit() {
    // Bit 9 is unused by the generic table.
    let r = util::parse_resist_mask("9");
    assert_eq!(r.err().expect("must fail"), FieldError::UnknownFlagBit { bits: 0x200 });
}

#[test]
fn generic_resist_rejects_non_digit() {
    assert_eq!(util::parse_resist_mask("g").err().expect("must fail"), FieldError::Number);
}

#[test]
fn monster_resist_digit_ten_is_poison() {
    let m = monster::parse_resist_mask("a").expect("valid digit");
    assert_eq!(m.bits(), masks::RESIST_POISON);
}

#[test]
fn monster_resist_remaps_low_bits() {
    // Digit 0 names sleep, digit 4 names fire in the monster ordering.
    let m = monster::parse_resist_mask("04").expect("valid digits");
    assert_eq!(m.bits(), masks::RESIST_SLEEP | masks::RESIST_FIRE);
}

#[test]
fn monster_resist_rejects_unmapped_bit() {
    let r = monster::parse_resist_mask("d");
    assert_eq!(r.err().expect("must fail"), FieldError::UnknownFlagBit { bits: 0x2000 });
}

#[test]
fn item_debuff_code_two_is_critical_alone() {
    let m = item::parse_attack_debuff_mask("2").expect("valid code");
    assert_eq!(m.bits(), masks::DEBUFF_CRITICAL);
}

#[test]
fn item_debuff_code_out_of_table_fails() {
    let r = item::parse_attack_debuff_mask("6");
    assert_eq!(r.err().expect("must fail"), FieldError::UnknownEnum { value: 6 });
}

#[test]
fn class_debuff_codes() {
    assert_eq!(class::parse_attack_debuff_mask("0").expect("code 0").bits(), 0);
    assert_eq!(
        class::parse_attack_debuff_mask("1").expect("code 1").bits(),
        masks::DEBUFF_KNOCKOUT
    );
    assert_eq!(
        class::parse_attack_debuff_mask("3").err().expect("must fail"),
        FieldError::UnknownEnum { value: 3 }
    );
}

#[test]
fn monster_debuff_scans_digits() {
    let m = monster::parse_attack_debuff_mask("04").expect("valid digits");
    assert_eq!(m.bits(), masks::DEBUFF_SLEEP | masks::DEBUFF_CRITICAL);
    let r = monster::parse_attack_debuff_mask("5");
    assert_eq!(r.err().expect("must fail"), FieldError::UnknownFlagBit { bits: 0x20 });
}

#[test]
fn equip_class_mask_sets_named_bits() {
    let m = item::parse_equip_class_mask("class[0]<+>class[5]").expect("valid tokens");
    assert_eq!(m, 0b100001);
}

#[test]
fn equip_class_mask_rejects_bit_out_of_range() {
    let r = item::parse_equip_class_mask("class[36]");
    assert_eq!(r.err().expect("must fail"), FieldError::BadMaskToken);
}

#[test]
fn equip_mask_shape_checks() {
    assert_eq!(item::parse_equip_class_mask("-").expect("sentinel"), 0);
    assert_eq!(
        item::parse_equip_class_mask("race[1]").err().expect("wrong name"),
        FieldError::BadMaskToken
    );
    assert_eq!(
        item::parse_equip_class_mask("class[]").err().expect("no digits"),
        FieldError::BadMaskToken
    );
    assert_eq!(
        item::parse_equip_class_mask("class[5000000000]").err().expect("overflow"),
        FieldError::Number
    );
    assert_eq!(item::parse_equip_race_mask("race[35]").expect("valid"), 1u64 << 35);
}

#[test]
fn equip_masks_field_handles_sentinels() {
    assert_eq!(item::parse_equip_masks("").expect("empty field"), (0, 0));
    assert_eq!(item::parse_equip_masks("-,-").expect("dashes"), (0, 0));
    assert_eq!(
        item::parse_equip_masks("class[1],race[2]").expect("both"),
        (0b10, 0b100)
    );
    assert_eq!(
        item::parse_equip_masks("class[1]").err().expect("one sub-field"),
        FieldError::Arity { expected: 2, actual: 1 }
    );
}

#[test]
fn curse_masks_field() {
    assert_eq!(item::parse_curse_masks("").expect("empty"), (0, 0));
    assert_eq!(item::parse_curse_masks("02,1").expect("digits"), (0b101, 0b10));
    assert_eq!(item::parse_curse_alignment_mask("-").expect("sentinel"), 0);
    assert_eq!(
        item::parse_curse_alignment_mask("3").err().expect("alignment out of range"),
        FieldError::UnknownFlagBit { bits: 0b1000 }
    );
    assert_eq!(
        item::parse_curse_sex_mask("2").err().expect("sex out of range"),
        FieldError::UnknownFlagBit { bits: 0b100 }
    );
}

#[test]
fn class_masks() {
    assert_eq!(class::parse_sex_mask("01").expect("both sexes"), 0b11);
    assert_eq!(class::parse_alignment_mask("2").expect("evil only"), 0b100);
    assert_eq!(class::parse_sex_mask("x").err().expect("non-digit"), FieldError::Number);
}

#[test]
fn broken_item_reference() {
    assert_eq!(item::parse_broken_item_id("-1").expect("sentinel"), None);
    assert_eq!(item::parse_broken_item_id("item[7]").expect("token"), Some(7));
    assert_eq!(
        item::parse_broken_item_id("seven").err().expect("bad shape"),
        FieldError::BadMaskToken
    );
}

#[test]
fn damage_and_stats_bonus() {
    let d = item::parse_damage_expr("1,8,2").expect("triple");
    assert_eq!(d[0].as_str(), "1");
    assert_eq!(d[1].as_str(), "8");
    assert_eq!(d[2].as_str(), "2");
    assert_eq!(
        item::parse_damage_expr("1,8").err().expect("pair"),
        FieldError::Arity { expected: 3, actual: 2 }
    );
    assert_eq!(item::parse_stats_bonus("1,-2,0").expect("list"), vec![1, -2, 0]);
    assert_eq!(item::parse_stats_bonus("").err().expect("empty"), FieldError::Number);
}

#[test]
fn barehand_damage_expr() {
    let d = class::parse_barehand_damage_expr("2,4,1").expect("triple");
    assert_eq!(d[1].as_str(), "4");
}

#[test]
fn spell_record_decodes() {
    let sp = spell::parse_spell("Fire<>x<>burns<>x<>x<>false<>3<>true").expect("well-formed");
    assert_eq!(sp.name.as_str(), "Fire");
    assert_eq!(sp.description.as_str(), "burns");
    assert_eq!(sp.cost_mp, 3);
    assert!(sp.ignore_silence);
    assert!(!sp.extra_learn);
    assert_eq!(
        spell::parse_spell("a<>b").err().expect("short record"),
        FieldError::Arity { expected: 8, actual: 2 }
    );
}

#[test]
fn spell_level_lists() {
    let empty = spell::parse_spells_of_level("  ").expect("blank level");
    assert!(empty.is_empty());
    let one = spell::parse_spells_of_level("Fire<>x<>d<>x<>x<>false<>3<>true").expect("one spell");
    assert_eq!(one.len(), 1);
    let two = spell::parse_spells_of_level(
        "Fire<>x<>d<>x<>x<>false<>3<>true<++>Ice<>x<>d<>x<>x<>true<>5<>false",
    )
    .expect("two spells");
    assert_eq!(two.len(), 2);
    assert_eq!(two[1].name.as_str(), "Ice");
}

#[test]
fn spell_realm_record_decodes() {
    let realm = spell::parse(2, false, 0, "Mage<-->Fire<>x<>d<>x<>x<>false<>3<>true<-->")
        .expect("well-formed");
    assert_eq!(realm.name.as_str(), "Mage");
    assert_eq!(realm.level_count, 2);
    assert_eq!(realm.spells_of_levels.len(), 2);
    assert_eq!(realm.spells_of_levels[0].len(), 1);
    assert!(realm.spells_of_levels[1].is_empty());
    assert!(!realm.is_only_for_monster);
    let r = spell::parse(2, false, 0, "Mage<-->");
    assert_eq!(r.err().expect("level count mismatch"), FieldError::Arity {
        expected: 3,
        actual: 2,
    });
}

#[test]
fn class_record_decodes() {
    let text = [
        "Fighter", "Fig", "01", "012", "11,0,0,0,0,0", "ac", "hit", "cnt", "2,4,1", "1", "0",
        "false", "3", "", "x", "1d10", "xp", "hits hard", "1", "x", "",
    ]
    .join("<>");
    let c = class::parse(0, &text).expect("well-formed");
    assert_eq!(c.name.as_str(), "Fighter");
    assert_eq!(c.sex_mask, 0b11);
    assert_eq!(c.alignment_mask, 0b111);
    assert_eq!(c.stats, vec![11, 0, 0, 0, 0, 0]);
    assert_eq!(c.barehand_damage_expr[0].as_str(), "2");
    assert_eq!(c.attack_debuff_mask.bits(), masks::DEBUFF_KNOCKOUT);
    assert_eq!(c.thief_skill, 0);
    assert!(!c.can_identify);
    assert_eq!(c.xl_for_dispell, Some(3));
    assert_eq!(c.dispell_mask.bits(), 0);
    assert_eq!(c.hp_expr.as_str(), "1d10");
    assert_eq!(c.inven_bonus, 1);
}

#[test]
fn class_dispel_level_zero_means_none() {
    let text = [
        "Mage", "Mag", "0", "0", "0", "ac", "hit", "cnt", "0,0,0", "0", "0", "true", "0", "", "x",
        "1d4", "xp", "", "0", "x", "",
    ]
    .join("<>");
    let c = class::parse(1, &text).expect("well-formed");
    assert_eq!(c.xl_for_dispell, None);
    assert!(c.can_identify);
}

fn item_fields() -> Vec<String> {
    let mut f = vec![String::new(); 39];
    f[0] = String::from("Sword");
    f[1] = String::from("?Weapon");
    f[2] = String::from("0");
    f[3] = String::from("100");
    f[4] = String::from("2");
    f[5] = String::from("class[0],race[1]");
    f[6] = String::from("1,0");
    f[7] = String::from("5");
    f[8] = String::from("1");
    f[9] = String::from("-1");
    f[10] = String::from("1,8,0");
    f[12] = String::from("1");
    f[13] = String::from("0");
    f[14] = String::from("2");
    f[16] = String::from("8");
    f[17] = String::from("");
    f[18] = String::from("0");
    f[19] = String::from("0");
    f[20] = String::from("25");
    f[21] = String::from("item[3]");
    f[22] = String::from("a");
    f[23] = String::from("a fine sword");
    f[24] = String::from("u");
    f[25] = String::from("s");
    f[26] = String::from("1");
    f[28] = String::from("false");
    f[29] = String::from("true");
    f[30] = String::from("false");
    f[31] = String::from("false");
    f[32] = String::from("0,0,0,0,0,1");
    f[33] = String::from("true");
    f[34] = String::from("0");
    f[35] = String::from("false");
    f[36] = String::from("false");
    f
}

#[test]
fn item_record_decodes() {
    let text = item_fields().join("<>");
    let it = item::parse(0, &text).expect("well-formed");
    assert_eq!(it.name_ident.as_str(), "Sword");
    assert_eq!(it.kind, ItemKind::Weapon);
    assert_eq!(it.price, 100);
    assert_eq!(it.stock, 2);
    assert_eq!(it.equip_class_mask, 0b1);
    assert_eq!(it.equip_race_mask, 0b10);
    assert_eq!(it.curse_alignment_mask, 0b010);
    assert_eq!(it.curse_sex_mask, 0b01);
    assert_eq!(it.ac, 1);
    assert_eq!(it.ac_curse, -1);
    assert_eq!(it.damage_expr[1].as_str(), "8");
    assert_eq!(it.attack_debuff_mask.bits(), masks::DEBUFF_CRITICAL);
    assert_eq!(it.resist_mask.bits(), masks::RESIST_FIRE);
    assert_eq!(it.slay_mask.bits(), 1 << 8);
    assert_eq!(it.protect_mask.bits(), 0);
    assert_eq!(it.break_prob_expr.as_str(), "25");
    assert_eq!(it.broken_item_id, Some(3));
    assert_eq!(it.description.as_str(), "a fine sword");
    assert_eq!(it.ident_difficulty, 5);
    assert_eq!(it.attack_target_count, 1);
    assert!(it.effect_only_if_equiped);
    assert_eq!(it.stats_bonus, vec![0, 0, 0, 0, 0, 1]);
    assert!(it.halve_attack_count_if_subweapon);
}

#[test]
fn item_record_arity_and_kind_errors() {
    let short = item_fields()[..38].join("<>");
    assert_eq!(
        item::parse(0, &short).err().expect("must fail"),
        FieldError::Arity { expected: 39, actual: 38 }
    );
    let mut f = item_fields();
    f[2] = String::from("7");
    assert_eq!(
        item::parse(0, &f.join("<>")).err().expect("unknown kind"),
        FieldError::UnknownEnum { value: 7 }
    );
}

#[test]
fn item_kind_codes() {
    assert_eq!(item::item_kind_from_code(6), Some(ItemKind::Tool));
    assert_eq!(item::item_kind_from_code(7), None);
}

fn monster_fields() -> Vec<String> {
    let mut f = vec![String::new(); 49];
    f[0] = String::from("Orc");
    f[1] = String::from("?Beast");
    f[2] = String::from("Orcs");
    f[3] = String::from("?Beasts");
    f[4] = String::from("0");
    f[5] = String::from("1");
    f[6] = String::from("35");
    f[7] = String::from("1d8");
    f[8] = String::from("0");
    f[9] = String::from("10");
    f[10] = String::from("8,8,8,8,8,8");
    f[12] = String::from("1d4");
    f[13] = String::from("1");
    f[14] = String::from("0");
    f[15] = String::from("0");
    f[16] = String::from("0");
    f[17] = String::from("0");
    f[18] = String::from("0");
    f[19] = String::from("");
    f[22] = String::from("0");
    f[23] = String::from("");
    f[24] = String::from("false");
    f[25] = String::from("true");
    f[26] = String::from("5");
    f[27] = String::from("1d4");
    f[28] = String::from("");
    f[29] = String::from("");
    f[39] = String::from("false");
    f[40] = String::from("false");
    f[45] = String::from("a pig-faced humanoid");
    f[48] = String::from("false");
    f
}

#[test]
fn monster_record_decodes() {
    let text = monster_fields().join("<>");
    let m = monster::parse(0, &text).expect("well-formed");
    assert_eq!(m.name_plural_ident.as_str(), "Orcs");
    assert_eq!(m.kind, MonsterKind::Fighter);
    assert_eq!(m.xl_expr.as_str(), "1");
    assert_eq!(m.xp_expr.as_str(), "35");
    assert_eq!(m.stats, vec![8, 8, 8, 8, 8, 8]);
    assert_eq!(m.attack_debuff_mask.bits(), 0);
    assert_eq!(m.resist_mask.bits(), masks::RESIST_SLEEP);
    assert_eq!(m.vuln_mask.bits(), 0);
    assert!(!m.can_call);
    assert!(m.can_flee);
    assert_eq!(m.friendly_prob, 5);
    assert!(m.follower.is_none());
    assert_eq!(m.description.as_str(), "a pig-faced humanoid");
}

#[test]
fn monster_record_tolerates_trailing_extension_fields() {
    let mut f = monster_fields();
    f.push(String::from("future"));
    let m = monster::parse(0, &f.join("<>")).expect("extension fields allowed");
    assert_eq!(m.name_ident.as_str(), "Orc");
    let short = monster_fields()[..48].join("<>");
    assert_eq!(
        monster::parse(0, &short).err().expect("too few"),
        FieldError::Arity { expected: 49, actual: 48 }
    );
}

#[test]
fn monster_follower_defaults() {
    let none = monster::parse_follower("", "7").expect("no follower");
    assert!(none.is_none());
    let default_prob = monster::parse_follower("3", "").expect("default probability");
    assert_eq!(default_prob.expect("present").prob, 50);
    let explicit = monster::parse_follower("3", "25").expect("explicit probability");
    let explicit = explicit.expect("present");
    assert_eq!(explicit.id_expr.as_str(), "3");
    assert_eq!(explicit.prob, 25);
    assert_eq!(
        monster::parse_follower("3", "x").err().expect("bad probability"),
        FieldError::Number
    );
}

#[test]
fn kind_codes_round_trip() {
    assert_eq!(ItemKind::Weapon.code(), 0);
    assert_eq!(item::item_kind_from_code(ItemKind::Tool.code()), Some(ItemKind::Tool));
    assert_eq!(MonsterKind::Mystery.code(), 14);
    assert_eq!(
        monster::monster_kind_from_code(MonsterKind::Undead.code()),
        Some(MonsterKind::Undead)
    );
}

#[test]
fn monster_kind_codes() {
    assert_eq!(monster::monster_kind_from_code(14), Some(MonsterKind::Mystery));
    assert_eq!(monster::monster_kind_from_code(15), None);
}

#[test]
fn monster_kind_mask_field() {
    let m = util::parse_monster_kind_mask("0a").expect("valid digits");
    assert_eq!(m.bits(), (1 << 0) | (1 << 10));
    assert_eq!(
        util::parse_monster_kind_mask("f").err().expect("undefined kind"),
        FieldError::UnknownFlagBit { bits: 0x8000 }
    );
}
