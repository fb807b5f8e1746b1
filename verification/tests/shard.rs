use schwitzerflut::color::Color;
use schwitzerflut::color::RgbColor;
use schwitzerflut::command::Command;
use schwitzerflut::command::SetPixelCommand;
use schwitzerflut::coordinates::Coordinates;
use schwitzerflut::generator::CommandGenerator;
use schwitzerflut::generator::VecCommandGenerator;
use schwitzerflut::shard::Shard;
use schwitzerflut::shard::ShardConfigError;

fn white_pixel(x: u32, y: u32) -> Command {
    Command::SetPixel(SetPixelCommand::new(
        Coordinates::new(x, y),
        Color::Rgb(RgbColor::new(255, 255, 255)),
    ))
}

fn eleven_commands() -> VecCommandGenerator {
    VecCommandGenerator {
        commands: vec![
            white_pixel(1, 1),
            white_pixel(2, 1),
            white_pixel(3, 1),
            white_pixel(4, 1),
            white_pixel(5, 1),
            white_pixel(6, 1),
            white_pixel(7, 1),
            white_pixel(8, 1),
            white_pixel(9, 1),
            white_pixel(10, 1),
            white_pixel(11, 1),
        ],
    }
}

#[test]
fn test_shard() {
    let generator = eleven_commands();

    let shard = Shard {
        generator,
        num_shards: 3,
        shard: 0,
    };

    let expected = vec![
        white_pixel(1, 1),
        white_pixel(4, 1),
        white_pixel(7, 1),
        white_pixel(10, 1),
    ];

    assert_eq!(expected, shard.commands());
}

#[test]
fn test_shard_one_of_three() {
    let shard = Shard::new(eleven_commands(), 1, 3).unwrap();
    let expected = vec![
        white_pixel(2, 1),
        white_pixel(5, 1),
        white_pixel(8, 1),
        white_pixel(11, 1),
    ];
    assert_eq!(expected, shard.commands());
}

#[test]
fn test_shard_two_of_three() {
    let shard = Shard::new(eleven_commands(), 2, 3).unwrap();
    let expected = vec![white_pixel(3, 1), white_pixel(6, 1), white_pixel(9, 1)];
    assert_eq!(expected, shard.commands());
}

#[test]
fn test_shards_recombine_to_original() {
    // Interleaving the three shards by original index reconstructs the
    // eleven-element sequence exactly once per element.
    let original = eleven_commands().commands();
    let parts: Vec<Vec<Command>> = (0..3)
        .map(|k| Shard::new(eleven_commands(), k, 3).unwrap().commands())
        .collect();

    assert_eq!(
        parts.iter().map(Vec::len).sum::<usize>(),
        original.len()
    );
    let mut recombined = Vec::new();
    for i in 0..original.len() {
        recombined.push(parts[i % 3][i / 3]);
    }
    assert_eq!(recombined, original);
}

#[test]
fn test_zero_shard_count_fails_fast() {
    match Shard::new(eleven_commands(), 0, 0) {
        Err(e) => assert_eq!(e, ShardConfigError::ZeroShardCount),
        Ok(_) => panic!("a zero shard count must fail fast"),
    }
}

#[test]
fn test_single_shard_is_identity() {
    let shard = Shard::new(eleven_commands(), 0, 1).unwrap();
    assert_eq!(shard.commands(), eleven_commands().commands());
}

#[test]
fn test_shard_index_beyond_count_is_empty() {
    let shard = Shard::new(eleven_commands(), 5, 3).unwrap();
    assert_eq!(shard.commands(), Vec::<Command>::new());
}
