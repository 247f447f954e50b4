use grimoire::config::{KeyboardConfig, TextureFormat};
use grimoire::keyboard::Keyboard;

const A: usize = 65;

fn presses(down: &[usize]) -> [u8; 256] {
    let mut keys = [0u8; 256];
    for key in down {
        keys[*key] = 255;
    }
    keys
}

fn rows(keyboard: &Keyboard, key: usize) -> (u8, u8, u8) {
    let bytes = keyboard.bytes();
    (bytes[key], bytes[256 + key], bytes[512 + key])
}

#[test]
fn new_keyboard_is_blank() {
    let keyboard = Keyboard::new(&KeyboardConfig { keyboard: true });
    assert!(keyboard.bytes().iter().all(|b| *b == 0));
}

#[test]
fn keyboard_toggle_row() {
    let mut keyboard = Keyboard::new(&KeyboardConfig { keyboard: true });
    // not pressed for two ticks: the toggle stays 0
    keyboard.tick(&presses(&[]));
    assert_eq!(rows(&keyboard, A), (0, 0, 0));
    keyboard.tick(&presses(&[]));
    assert_eq!(rows(&keyboard, A), (0, 0, 0));
    // pressed on tick 3: the edge fires, the toggle flips to on
    keyboard.tick(&presses(&[A]));
    assert_eq!(rows(&keyboard, A), (255, 255, 255));
    // held through tick 4: the edge does not fire again, the toggle stays
    keyboard.tick(&presses(&[A]));
    assert_eq!(rows(&keyboard, A), (255, 0, 255));
    // released on tick 5
    keyboard.tick(&presses(&[]));
    assert_eq!(rows(&keyboard, A), (0, 0, 255));
    // pressed again on tick 6: the toggle flips back
    keyboard.tick(&presses(&[A]));
    assert_eq!(rows(&keyboard, A), (255, 255, 0));
}

#[test]
fn keys_do_not_disturb_one_another() {
    let mut keyboard = Keyboard::new(&KeyboardConfig { keyboard: true });
    keyboard.tick(&presses(&[0, 255]));
    assert_eq!(rows(&keyboard, 0), (255, 255, 255));
    assert_eq!(rows(&keyboard, 255), (255, 255, 255));
    assert_eq!(rows(&keyboard, 1), (0, 0, 0));
    assert_eq!(rows(&keyboard, 254), (0, 0, 0));
    keyboard.tick(&presses(&[255]));
    assert_eq!(rows(&keyboard, 0), (0, 0, 255));
    assert_eq!(rows(&keyboard, 255), (255, 0, 255));
}

#[test]
fn only_a_full_press_counts_as_down() {
    let mut keyboard = Keyboard::new(&KeyboardConfig { keyboard: true });
    let mut keys = [0u8; 256];
    keys[A] = 1;
    keyboard.tick(&keys);
    assert_eq!(rows(&keyboard, A), (1, 0, 0));
    // a key that was not at rest does not go down
    keys[A] = 255;
    keyboard.tick(&keys);
    assert_eq!(rows(&keyboard, A), (255, 0, 0));
}

#[test]
fn keyboard_image_as_resource() {
    let mut keyboard = Keyboard::new(&KeyboardConfig { keyboard: true });
    keyboard.tick(&presses(&[A]));
    let data = keyboard.resource_data();
    assert_eq!(data.width, 256);
    assert_eq!(data.height, 3);
    assert_eq!(data.format, TextureFormat::RU8);
    assert_eq!((data.xoffset, data.yoffset, data.subwidth, data.subheight), (0, 0, 256, 3));
    assert_eq!(data.time, Some(0));
    assert_eq!(data.bytes.len(), 768);
    assert_eq!(data.bytes.as_slice(), &keyboard.bytes()[..]);
    assert_eq!(data.bytes[A], 255);
    assert_eq!(data.bytes[256 + A], 255);
    assert_eq!(data.bytes[512 + A], 255);
}
