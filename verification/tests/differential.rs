use backend_supervisor::config::parse_port;
use backend_supervisor::envfile::load_user_env;
use backend_supervisor::inspector::{listener_pids, matches_expected_backend};
use backend_supervisor::setup::shell_path;
use backend_supervisor::shutdown::workload_names;
use backend_supervisor::text::{contains, lines, trim};

struct Dice(u64);

impl Dice {
    fn roll(&mut self, sides: usize) -> usize {
        self.0 = self.0.wrapping_mul(6364136223846793005).wrapping_add(1442695040888963407);
        ((self.0 >> 33) as usize) % sides
    }

    fn text(&mut self, alphabet: &[char], longest: usize) -> String {
        let length = self.roll(longest + 1);
        (0..length).map(|_| alphabet[self.roll(alphabet.len())]).collect()
    }
}

const FILE_ALPHABET: [char; 16] = [
    ' ', '\t', '\n', '\n', '\r', '=', '#', 'A', 'b', '1', '/', '\u{a0}', 'é', '+', '-', '0',
];

const NUMBER_ALPHABET: [char; 10] = ['0', '1', '2', '5', '6', '9', '+', '-', ' ', '\n'];

#[test]
fn random_texts_trim_and_split_as_in_the_standard_library() {
    let mut dice = Dice(1);
    for _ in 0..3000 {
        let text = dice.text(&FILE_ALPHABET, 24);
        assert_eq!(trim(&text), text.trim(), "{:?}", text);
        let expected: Vec<String> = text.lines().map(|l| l.to_string()).collect();
        assert_eq!(lines(&text), expected, "{:?}", text);
    }
}

#[test]
fn random_needles_are_found_as_in_the_standard_library() {
    let mut dice = Dice(2);
    let alphabet = ['a', 'b', '/', 'é'];
    for _ in 0..3000 {
        let hay = dice.text(&alphabet, 12);
        let needle = dice.text(&alphabet, 3);
        assert_eq!(contains(&hay, &needle), hay.contains(&needle), "{:?} {:?}", hay, needle);
        assert_eq!(
            matches_expected_backend(&hay, &needle),
            hay.contains("node") && hay.contains(&needle)
        );
    }
}

#[test]
fn random_ports_parse_as_in_the_standard_library() {
    let mut dice = Dice(3);
    for _ in 0..3000 {
        let text = dice.text(&NUMBER_ALPHABET[..8], 7);
        assert_eq!(parse_port(&text), text.parse::<u16>().ok(), "{:?}", text);
    }
}

#[test]
fn random_listings_give_the_positive_ids() {
    let mut dice = Dice(4);
    for _ in 0..3000 {
        let listing = dice.text(&NUMBER_ALPHABET, 30);
        let mut expected = Vec::new();
        for line in listing.lines().filter(|v| !v.trim().is_empty()) {
            match line.trim().parse::<i32>() {
                Ok(v) if v > 0 => expected.push(v),
                _ => continue,
            }
        }
        assert_eq!(listener_pids(&listing), expected, "{:?}", listing);
    }
}

#[test]
fn random_settings_files_read_as_line_by_line() {
    let mut dice = Dice(5);
    for _ in 0..3000 {
        let content = dice.text(&FILE_ALPHABET, 40);
        let mut expected = Vec::new();
        for line in content.lines() {
            let trimmed = line.trim();
            if trimmed.is_empty() || trimmed.starts_with('#') {
                continue;
            }
            if let Some(eq_pos) = trimmed.find('=') {
                let key = trimmed[..eq_pos].trim().to_string();
                let val = trimmed[eq_pos + 1..].trim().to_string();
                if !key.is_empty() {
                    expected.push((key, val));
                }
            }
        }
        assert_eq!(load_user_env(&content), expected, "{:?}", content);
    }
}

#[test]
fn random_outputs_give_the_last_path_line_and_the_names() {
    let mut dice = Dice(6);
    for _ in 0..3000 {
        let output = dice.text(&FILE_ALPHABET, 30);
        let path = output
            .lines()
            .rev()
            .find(|l| !l.trim().is_empty() && l.contains('/'))
            .unwrap_or("")
            .trim()
            .to_string();
        assert_eq!(shell_path(&output), path, "{:?}", output);
        let names: Vec<String> =
            output.lines().filter(|l| !l.is_empty()).map(|l| l.to_string()).collect();
        assert_eq!(workload_names(&output), names, "{:?}", output);
    }
}
