use mc_docker::compose::{port_mapping_text, read_outside_port};
use mc_docker::error::ConfigFailure;
use mc_docker::logs::{display, find_signs, Signs};
use mc_docker::ports::try_allocate;
use mc_docker::runtime::parse_container_id;

fn outside_port_by_std(mapping: &str) -> Result<u16, ConfigFailure> {
    if !mapping.contains(':') {
        return Err(ConfigFailure::PortMappingMalformed);
    }
    match mapping.split(':').next().unwrap().parse::<u16>() {
        Ok(port) => Ok(port),
        Err(_) => Err(ConfigFailure::PortNotANumber),
    }
}

fn display_by_std(line: &str, fields: usize) -> String {
    line.split(' ')
        .skip(fields)
        .collect::<Vec<&str>>()
        .join(" ")
        .trim_end_matches("\r\n")
        .to_string()
}

fn container_id_by_std(output: &str) -> Option<String> {
    let line = output.split('\n').find(|line| line.starts_with("Container"))?;
    let id = line.split(' ').nth(1)?;
    if id.is_empty() {
        None
    } else {
        Some(id.to_string())
    }
}

fn next_free_by_search(in_use: &[u16], baseline: u16) -> Option<u16> {
    (baseline as u32 + 1..=u16::MAX as u32).map(|p| p as u16).find(|p| !in_use.contains(p))
}

#[test]
fn outside_port_agrees_with_the_standard_parser_on_every_number() {
    for n in 0u32..=70000 {
        let mapping = format!("{n}:25565");
        assert_eq!(read_outside_port(&mapping), outside_port_by_std(&mapping), "{mapping}");
    }
}

#[test]
fn outside_port_agrees_with_the_standard_parser_on_odd_texts() {
    let texts = [
        "", ":", "::", "+", "+:", "-", "-:", "+0:", "-0:", "+-1:", "-+1:", "++1:", "0:", "00:",
        "000000000000000000000000000000000001:", "65535:", "65536:", "065535:", "+65535:", "+65536:",
        "4294967296:", "18446744073709551616:", " 1:", "1 :", "1\t:", "1\n:", "１:", "١:", "1_000:",
        "1e3:", "0x10:", "1.0:", "1,0:", "٣٤:", "12:34:56", "a:b", "12", "+12", "12a:1", "a12:1",
        "1+:", "1-:", "\u{0}1:", "1\u{0}:", "²:", "①:",
    ];
    for text in texts {
        assert_eq!(read_outside_port(text), outside_port_by_std(text), "{text:?}");
    }
}

#[test]
fn port_mapping_agrees_with_the_standard_formatter_on_every_port() {
    for port in 0u16..=u16::MAX {
        assert_eq!(port_mapping_text(port), format!("{port}:25565"));
    }
}

#[test]
fn port_mapping_reads_back_on_every_port() {
    for port in 0u16..=u16::MAX {
        assert_eq!(read_outside_port(&port_mapping_text(port)), Ok(port));
    }
}

#[test]
fn display_agrees_with_split_skip_and_join() {
    let lines = [
        "",
        " ",
        "  ",
        "a",
        "a b",
        "a b c",
        "a b c d",
        "a b c d e f g",
        "a  b   c    d",
        " a b c d ",
        "   ",
        "a b c d\r\n",
        "a b c d\r\n\r\n",
        "a b c d\n",
        "a b c d\r",
        "a b c d \r\n",
        "a b c\r\n",
        "\r\n",
        "\r\n\r\n",
        "a\r\nb c d e\r\n",
        "[12:00:00] [Server thread/INFO]: <Alice> hello\r\n",
        "[12:00:00] [Server thread/INFO]: Bob joined the game\r\n",
        "[12:00:00]\t[Server thread/INFO]: tabs are no blanks\r\n",
        "ünï cödé ✓ text ✓\r\n",
    ];
    for line in lines {
        for fields in 0..8 {
            assert_eq!(display(line, fields), display_by_std(line, fields), "{line:?} {fields}");
        }
    }
}

#[test]
fn container_id_agrees_with_split_and_find() {
    let outputs = [
        "",
        "\n",
        "Container",
        "Container ",
        "Container  ",
        "Container a",
        "Container a b",
        "Container  a",
        "Containera b",
        " Container a",
        "x\nContainer a\n",
        "x\nContainer\nContainer a\n",
        "x\n\nContainer a  Created\nContainer b  Created",
        "Contain\ner a\nContainer c",
        "Container a\r\n",
        "Container\ta b",
        "Network n  Created\nVolume v  Created\nContainer t1-mc-1  Created\nContainer t1-mc-1  Starting\n",
        "container a\nCONTAINER b\nContainer c",
        "Container ünï-1 ✓",
    ];
    for output in outputs {
        assert_eq!(parse_container_id(output).ok(), container_id_by_std(output), "{output:?}");
    }
}

#[test]
fn allocator_agrees_with_a_plain_search() {
    let lists: Vec<Vec<u16>> = vec![
        vec![],
        vec![31000],
        vec![31001],
        vec![31000, 31001, 31003],
        vec![31003, 31002, 31001],
        vec![31001, 31001, 31002, 31002],
        vec![0, 1, 2, 65535, 65534],
        vec![31001, 31002, 31003, 31004, 31005, 31007],
        (31000..31100).collect(),
        (31000..31100).rev().collect(),
        (31000..31100).filter(|p| p % 7 != 0).collect(),
        (65000..=65535).collect(),
    ];
    for in_use in &lists {
        for baseline in [0u16, 1, 30999, 31000, 31001, 31050, 31099, 64999, 65000, 65533, 65534, 65535] {
            assert_eq!(
                try_allocate(in_use, baseline),
                next_free_by_search(in_use, baseline),
                "{in_use:?} {baseline}"
            );
        }
    }
}

fn signs_by_std(line: &str) -> Signs {
    let chars: Vec<char> = line.chars().collect();
    let mut chat = false;
    for (open, c) in chars.iter().enumerate() {
        if *c == '<' {
            for d in &chars[open + 1..] {
                if *d == '\n' {
                    break;
                }
                if *d == '>' {
                    chat = true;
                }
            }
        }
    }
    Signs { chat, joined: line.contains("joined the game"), left: line.contains("left the game") }
}

#[test]
fn signs_agree_with_plain_searches() {
    let lines = [
        "",
        "<",
        ">",
        "<>",
        "><",
        "> <",
        "<a>",
        "<a",
        "a>",
        "<\n>",
        "<a\nb>",
        "<a>\nb",
        "a\n<b>",
        "<\n<>",
        "<\r>",
        "<a\n>b<c\n",
        "<<>>",
        "x < y and y > z",
        "x > y and y < z",
        "<é✓>",
        "＜a＞",
        "joined the game",
        "left the game",
        "Bob joined the game\r\n",
        "Bob left the game\r\n",
        "joined  the game",
        "joined the\ngame",
        "Joined the game",
        "joined the gam",
        "oined the game",
        "rejoined the gamers",
        "left the gameleft the game",
        "joined the game left the game <x>",
        "[12:00:00] [Server thread/INFO]: <Alice> hello",
        "[12:00:00] [Server thread/INFO]: Starting minecraft server version 1.19.2",
        "[12:00:00] [Server thread/INFO]: Bob lost connection: Disconnected",
    ];
    for line in lines {
        assert_eq!(find_signs(line), signs_by_std(line), "{line:?}");
    }
}
