use winter_wonderlights::effects::{
    DebugBinaryIndex, DebugOneByOne, EffectConfig, EffectList, VirtualTreeConfig,
};
use winter_wonderlights::ws2811::Ws2811Driver;
use winter_wonderlights::frame::{
    single_light_colours, uniform_colours, DebugDriver, Driver, FrameType, TestDriver,
};

#[test]
fn debug_one_by_one_test() {
    let mut driver = TestDriver::new(5);
    DebugOneByOne {}.run(&mut driver);

    assert_eq!(
        driver.data,
        vec![
            FrameType::Off,
            FrameType::RawData(vec![(255, 255, 255), (0, 0, 0), (0, 0, 0), (0, 0, 0), (0, 0, 0)]),
            FrameType::Off,
            FrameType::RawData(vec![(0, 0, 0), (255, 255, 255), (0, 0, 0), (0, 0, 0), (0, 0, 0)]),
            FrameType::Off,
            FrameType::RawData(vec![(0, 0, 0), (0, 0, 0), (255, 255, 255), (0, 0, 0), (0, 0, 0)]),
            FrameType::Off,
            FrameType::RawData(vec![(0, 0, 0), (0, 0, 0), (0, 0, 0), (255, 255, 255), (0, 0, 0)]),
            FrameType::Off,
            FrameType::RawData(vec![(0, 0, 0), (0, 0, 0), (0, 0, 0), (0, 0, 0), (255, 255, 255)]),
            FrameType::Off,
        ]
    );
}

#[test]
fn debug_binary_index_test() {
    let mut driver = TestDriver::new(8);
    DebugBinaryIndex {}.run(&mut driver);

    assert_eq!(
        driver.data,
        vec![
            FrameType::Off,
            FrameType::RawData(vec![
                (255, 0, 0), (255, 0, 0), (255, 0, 0), (255, 0, 0),
                (0, 0, 255), (0, 0, 255), (0, 0, 255), (0, 0, 255)
            ]),
            FrameType::Off,
            FrameType::RawData(vec![
                (255, 0, 0), (255, 0, 0), (0, 0, 255), (0, 0, 255),
                (255, 0, 0), (255, 0, 0), (0, 0, 255), (0, 0, 255)
            ]),
            FrameType::Off,
            FrameType::RawData(vec![
                (255, 0, 0), (0, 0, 255), (255, 0, 0), (0, 0, 255),
                (255, 0, 0), (0, 0, 255), (255, 0, 0), (0, 0, 255)
            ]),
            FrameType::Off,
        ]
    );
}

#[test]
fn debug_binary_index_one_light_test() {
    // Index 0 in binary is a single digit, so there is one frame, with the light red.
    let mut driver = TestDriver::new(1);
    DebugBinaryIndex {}.run(&mut driver);
    assert_eq!(
        driver.data,
        vec![FrameType::Off, FrameType::RawData(vec![(255, 0, 0)]), FrameType::Off]
    );
}

#[test]
fn debug_binary_index_five_lights_test() {
    // The largest index is 4 = 100 in binary: three digits, each index padded to three.
    let mut driver = TestDriver::new(5);
    DebugBinaryIndex {}.run(&mut driver);
    let red = (255, 0, 0);
    let blue = (0, 0, 255);
    assert_eq!(
        driver.data,
        vec![
            FrameType::Off,
            FrameType::RawData(vec![red, red, red, red, blue]),
            FrameType::Off,
            FrameType::RawData(vec![red, red, blue, blue, red]),
            FrameType::Off,
            FrameType::RawData(vec![red, blue, red, blue, red]),
            FrameType::Off,
        ]
    );
}

#[test]
fn debug_one_by_one_no_lights_test() {
    let mut driver = TestDriver::new(0);
    DebugOneByOne {}.run(&mut driver);
    assert_eq!(driver.data, vec![FrameType::Off]);
}

#[test]
fn one_by_one_schedule_pauses_test() {
    let steps = DebugOneByOne {}.schedule(2);
    let pauses: Vec<u64> = steps.iter().map(|s| s.pause_ms).collect();
    assert_eq!(pauses, vec![0, 800, 250, 800, 250]);
}

#[test]
fn effect_list_names_and_configs_test() {
    assert_eq!(EffectList::DebugOneByOne.name(), "DebugOneByOne");
    assert_eq!(EffectList::DebugBinaryIndex.name(), "DebugBinaryIndex");
    assert!(matches!(EffectList::DebugOneByOne.config(), EffectConfig::DebugOneByOne(_)));
    assert!(matches!(EffectList::DebugBinaryIndex.config(), EffectConfig::DebugBinaryIndex(_)));
    assert_eq!(
        EffectList::all(),
        vec![EffectList::DebugOneByOne, EffectList::DebugBinaryIndex]
    );
}

#[test]
fn virtual_tree_config_test() {
    let mut config = VirtualTreeConfig::default();
    assert_eq!(config.loop_pause_time, 1500);
    assert_eq!(config.effect, None);
    assert_eq!(VirtualTreeConfig::config_filename(), "config/drivers/virtual_tree.ron");
    assert_eq!(config.loop_round(), (None, 1000));
    assert_eq!(config.effect_config(), None);

    // Choosing an effect restarts; choosing the same one again does not; choosing none does.
    assert!(config.select_effect(Some(EffectList::DebugBinaryIndex)));
    assert!(!config.select_effect(Some(EffectList::DebugBinaryIndex)));
    assert_eq!(config.loop_round(), (Some(EffectList::DebugBinaryIndex), 1500));
    assert!(matches!(config.effect_config(), Some(EffectConfig::DebugBinaryIndex(_))));
    assert!(config.select_effect(Some(EffectList::DebugOneByOne)));
    assert!(config.select_effect(None));
    assert!(config.select_effect(None));
    assert_eq!(config.effect, None);
}

#[test]
fn frame_helpers_test() {
    assert_eq!(uniform_colours(3, (1, 2, 3)), vec![(1, 2, 3); 3]);
    assert_eq!(
        single_light_colours(3, 1),
        vec![(0, 0, 0), (255, 255, 255), (0, 0, 0)]
    );
    assert_eq!(single_light_colours(2, 5), vec![(0, 0, 0), (0, 0, 0)]);
    let mut driver = DebugDriver { lights_num: 7 };
    assert_eq!(driver.get_lights_count(), 7);
    driver.clear();
    let mut test_driver = TestDriver::new(2);
    test_driver.clear();
    test_driver.display_frame_with_brightness(FrameType::RawData(vec![(1, 2, 3); 2]), 40);
    assert_eq!(
        test_driver.data,
        vec![FrameType::Off, FrameType::RawData(vec![(1, 2, 3); 2])]
    );
    assert_eq!(test_driver.brightness, vec![100, 40]);
}

#[test]
fn ws2811_words_test() {
    let mut driver = Ws2811Driver::new(3);
    assert_eq!(driver.leds(), &vec![(0, 0, 0, 0); 3]);
    assert_eq!(driver.get_lights_count(), 3);
    // Each colour is sent blue first; LEDs beyond the colours keep their words.
    driver.display_frame(FrameType::RawData(vec![(1, 2, 3), (4, 5, 6), (7, 8, 9)]));
    driver.display_frame(FrameType::RawData(vec![(10, 20, 30)]));
    assert_eq!(driver.leds(), &vec![(30, 20, 10, 0), (6, 5, 4, 0), (9, 8, 7, 0)]);
    // Colours beyond the LEDs are dropped.
    driver.display_colours(&[(1, 1, 1), (2, 2, 2), (3, 3, 3), (4, 4, 4)]);
    assert_eq!(driver.leds(), &vec![(1, 1, 1, 0), (2, 2, 2, 0), (3, 3, 3, 0)]);
    driver.display_frame(FrameType::Off);
    assert_eq!(driver.leds(), &vec![(0, 0, 0, 0); 3]);
}
