//! End-to-end tests of the scenario aggregator, and of the rendering
//! helpers on a decoded aggregate.

use block_modes::BlockMode;
use md5::Digest;

use javardry_spoiler::masks;
use javardry_spoiler::render;
use javardry_spoiler::EntityKind;
use javardry_spoiler::FieldError;
use javardry_spoiler::LoadError;
use javardry_spoiler::MandatoryKey;
use javardry_spoiler::Scenario;

fn line(key: &str, value: &str) -> String {
    format!("{} = \"{}\"\n", key, value)
}

/// A minimal plaintext with the mandatory scalars and one stat, race and
/// class each.
fn minimal_plaintext() -> String {
    let mut text = String::new();
    text.push_str(&line("Version", "1.0"));
    text.push_str(&line("ReadKeyword", "opensesame"));
    text.push_str(&line("GameTitle", "Tower of Trials"));
    text.push_str(&line("SpellLvNum", "1"));
    text.push_str(&line("ExclusiveUseOfMonsters", "false"));
    text.push_str(&line("Abi0", "strength<>STR<>1<>0<>false<>x<>y<>false"));
    text.push_str(&line(
        "Race0",
        "Human<>Hu<>8,8,8,8,8,8<>80<>0<>1<>0<><><><><>plain folk<><>0",
    ));
    text.push_str(&line(
        "Class0",
        "Fighter<>Fig<>01<>012<>11,0,0,0,0,0<>ac<>hit<>cnt<>2,4,1<>1<>0<>false<>0<><>x<>1d10<>xp<>d<>1<>x<>",
    ));
    text
}

#[test]
fn minimal_scenario_loads() {
    let text = minimal_plaintext();
    let sc = Scenario::load_from_plaintext(&text).expect("well-formed scenario");
    assert_eq!(sc.editor_version.as_str(), "1.0");
    assert_eq!(sc.id.as_str(), "opensesame");
    assert_eq!(sc.title.as_str(), "Tower of Trials");
    assert_eq!(sc.stats.len(), 1);
    assert_eq!(sc.races.len(), 1);
    assert_eq!(sc.classes.len(), 1);
    assert_eq!(sc.spell_realms.len(), 0);
    assert_eq!(sc.items.len(), 0);
    assert_eq!(sc.monsters.len(), 0);
    assert_eq!(sc.stats[0].name.as_str(), "strength");
    assert_eq!(sc.races[0].name.as_str(), "Human");
    assert_eq!(sc.classes[0].name.as_str(), "Fighter");
}

#[test]
fn missing_mandatory_scalars_fail_in_order() {
    let r = Scenario::load_from_plaintext("GameTitle = \"t\"");
    assert_eq!(r.err().expect("must fail"), LoadError::MissingKey(MandatoryKey::Version));
    let r = Scenario::load_from_plaintext("Version = \"1\"");
    assert_eq!(r.err().expect("must fail"), LoadError::MissingKey(MandatoryKey::ReadKeyword));
    let r = Scenario::load_from_plaintext("Version = \"1\"\nReadKeyword = \"k\"");
    assert_eq!(r.err().expect("must fail"), LoadError::MissingKey(MandatoryKey::GameTitle));
}

#[test]
fn missing_spell_scalars_fail() {
    let mut text = String::new();
    text.push_str(&line("Version", "1"));
    text.push_str(&line("ReadKeyword", "k"));
    text.push_str(&line("GameTitle", "t"));
    let r = Scenario::load_from_plaintext(&text);
    assert_eq!(r.err().expect("must fail"), LoadError::MissingKey(MandatoryKey::SpellLvNum));
    text.push_str(&line("SpellLvNum", "one"));
    let r = Scenario::load_from_plaintext(&text);
    assert_eq!(r.err().expect("must fail"), LoadError::BadScalar(MandatoryKey::SpellLvNum));
}

#[test]
fn grammar_error_surfaces_with_line() {
    let text = "Version = \"1\"\nbroken line\n";
    let r = Scenario::load_from_plaintext(text);
    assert_eq!(
        r.err().expect("must fail"),
        LoadError::Grammar(javardry_spoiler::GrammarError::MissingEquals { line: 1 })
    );
}

#[test]
fn entity_error_carries_kind_and_id() {
    let mut text = minimal_plaintext();
    text.push_str(&line("Abi1", "too<>short"));
    let r = Scenario::load_from_plaintext(&text);
    assert_eq!(
        r.err().expect("must fail"),
        LoadError::Entity {
            kind: EntityKind::Stat,
            id: 1,
            err: FieldError::Arity { expected: 8, actual: 2 },
        }
    );
}

#[test]
fn spell_realms_decode_with_last_realm_toggle() {
    let mut text = String::new();
    text.push_str(&line("Version", "1"));
    text.push_str(&line("ReadKeyword", "k"));
    text.push_str(&line("GameTitle", "t"));
    text.push_str(&line("SpellLvNum", "1"));
    text.push_str(&line("ExclusiveUseOfMonsters", "true"));
    text.push_str(&line("SpellKind0", "Mage<-->Fire<>x<>d<>x<>x<>false<>3<>true"));
    text.push_str(&line("SpellKind1", "Beast<-->"));
    let sc = Scenario::load_from_plaintext(&text).expect("well-formed");
    assert_eq!(sc.spell_realms.len(), 2);
    assert!(!sc.spell_realms[0].is_only_for_monster);
    assert!(sc.spell_realms[1].is_only_for_monster);
    assert_eq!(sc.spell_realms[0].spells_of_levels[0][0].name.as_str(), "Fire");
}

#[test]
fn load_from_ciphertext_round_trips() {
    let text = minimal_plaintext();
    let key = {
        let digest = md5::Md5::digest(b"MadPoet");
        digest[..8].to_vec()
    };
    let cipher =
        block_modes::Ecb::<des::Des, block_modes::block_padding::Pkcs7>::new_from_slices(&key, &[])
            .expect("key length is 8");
    let ciphertext = cipher.encrypt_vec(text.as_bytes());
    let sc = Scenario::load_from_ciphertext(&ciphertext).expect("well-formed ciphertext");
    assert_eq!(sc.title.as_str(), "Tower of Trials");
    assert_eq!(sc.stats.len(), 1);
}

#[test]
fn load_from_ciphertext_reports_cipher_errors() {
    let r = Scenario::load_from_ciphertext(&[1, 2, 3]);
    assert_eq!(
        r.err().expect("must fail"),
        LoadError::Crypto(javardry_spoiler::CryptoError::BadLength)
    );
}

#[test]
fn render_helpers_format_cells() {
    assert_eq!(render::bool_str(true), "o");
    assert_eq!(render::bool_str(false), "");
    let resist = javardry_spoiler::ResistMask::from_bits(
        masks::RESIST_SILENCE | masks::RESIST_FIRE | masks::RESIST_GENERIC,
    )
    .expect("valid bits");
    assert_eq!(render::resist_mask_str(resist), "\u{9ed9}\u{706b}\u{7121}");
    let debuff =
        javardry_spoiler::DebuffMask::from_bits(masks::DEBUFF_SLEEP | masks::DEBUFF_CRITICAL)
            .expect("valid bits");
    assert_eq!(render::debuff_mask_str(debuff), "\u{7720}\u{9996}");
    assert_eq!(render::sex_mask_str(0b11), "\u{7537}\u{5973}");
    assert_eq!(render::alignment_mask_str(0b101), "GE");
    assert_eq!(render::item_kind_str(javardry_spoiler::ItemKind::Weapon), "\u{6b66}\u{5668}");
    assert_eq!(
        render::monster_kind_str(javardry_spoiler::MonsterKind::Dragon),
        "\u{7adc}"
    );
    let kinds = javardry_spoiler::MonsterKindMask::from_bits((1 << 0) | (1 << 7))
        .expect("valid bits");
    assert_eq!(render::monster_kind_mask_str(kinds), "\u{6226}\u{58eb} \u{7adc}");
    assert_eq!(render::strip_text_tags("a<br>b<br>"), "ab");
    assert_eq!(render::strip_text_tags("plain"), "plain");
}

#[test]
fn render_positional_masks_use_scenario_abbreviations() {
    let text = minimal_plaintext();
    let sc = Scenario::load_from_plaintext(&text).expect("well-formed");
    assert_eq!(render::race_mask_str(&sc, 0b1), "H");
    assert_eq!(render::race_mask_str(&sc, 0), "-");
    assert_eq!(render::class_mask_str(&sc, 0b1), "F");
}
