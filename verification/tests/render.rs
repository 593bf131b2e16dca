use bracket_terminal::color::{ColorPair, Rgba};
use bracket_terminal::console::GridConsole;
use bracket_terminal::drawbatch::{DrawBatch, DrawCommand};
use bracket_terminal::geometry::{Padding, Point, PointF, Rect};
use bracket_terminal::textblock::TextBlock;
use bracket_terminal::textbuilder::TextBuilder;

fn block_abcdef() -> TextBlock {
    // three columns, two rows: "abc" over "def"
    let mut block = TextBlock::new(2, 1, 3, 2);
    let mut buf = TextBuilder::empty();
    buf.colored_mode(false).append("ab").ln();
    assert!(block.print(&buf).is_ok());
    let mut second = TextBuilder::empty();
    second.colored_mode(false).append("de");
    assert!(block.print(&second).is_ok());
    block
}

fn set_command(x: i32, y: i32, glyph: u16) -> DrawCommand {
    DrawCommand::SetCell {
        pos: Point::new(x, y),
        color: ColorPair::new(Rgba::white(), Rgba::black()),
        glyph,
    }
}

fn commands_of(batch: &DrawBatch) -> Vec<DrawCommand> {
    (0..batch.len()).map(|i| batch.get(i).unwrap()).collect()
}

#[test]
fn block_renders_onto_console() {
    let block = block_abcdef();
    let mut console = GridConsole::new(4, 4);
    block.render(&mut console);
    let rows: Vec<Vec<u16>> = (0..4)
        .map(|y| (0..4).map(|x| console.tile(x, y).unwrap().glyph).collect())
        .collect();
    // the block stands at column 2, row 1; its third column falls outside
    assert_eq!(
        rows,
        vec![vec![32, 32, 32, 32], vec![32, 32, 97, 98], vec![32, 32, 100, 101], vec![32, 32, 32, 32]]
    );
    assert!(console.is_dirty());
}

#[test]
fn block_renders_to_draw_batch() {
    let block = block_abcdef();
    let mut batch = DrawBatch::new();
    batch.set(Point::new(9, 9), ColorPair::new(Rgba::black(), Rgba::white()), 1);
    block.render_to_draw_batch(&mut batch);
    assert_eq!(batch.len(), 7);
    assert_eq!(
        commands_of(&batch)[1..],
        [
            set_command(2, 1, 97),
            set_command(3, 1, 98),
            set_command(4, 1, 0),
            set_command(2, 2, 100),
            set_command(3, 2, 101),
            set_command(4, 2, 0),
        ]
    );
    assert_eq!(batch.get(7), None);
}

#[test]
fn block_renders_clipped() {
    let block = block_abcdef();
    let mut batch = DrawBatch::new();
    block.render_to_draw_batch_clip(&mut batch, &Rect::with_exact(1, 0, 9, 9));
    assert_eq!(
        commands_of(&batch),
        vec![set_command(3, 1, 98), set_command(4, 1, 0), set_command(3, 2, 101), set_command(4, 2, 0)]
    );
    let mut inner = DrawBatch::new();
    block.render_to_draw_batch_clip(&mut inner, &Rect::with_exact(-3, 1, 2, 2));
    assert_eq!(commands_of(&inner), vec![set_command(2, 2, 100), set_command(3, 2, 101)]);
    let mut none = DrawBatch::new();
    block.render_to_draw_batch_clip(&mut none, &Rect::with_exact(2, 0, 1, 2));
    assert_eq!(none.len(), 0);
    block.render_to_draw_batch_clip(&mut none, &Rect::with_exact(5, 5, 9, 9));
    assert_eq!(none.len(), 0);
}

#[test]
fn block_renders_fancy_with_padding() {
    let mut block = block_abcdef();
    block.set_padding(Padding { x1: 100, x2: 50, y1: 0, y2: 200 });
    let mut batch = DrawBatch::new();
    block.render_to_draw_batch_fancy(&mut batch, PointF::new(500, -250), 3, 1571, PointF::new(2000, 500));
    assert_eq!(batch.len(), 6);
    let fancy = |x: i64, y: i64, glyph: u16| DrawCommand::SetFancy {
        position: PointF::new(x, y),
        z_order: 3,
        rotation: 1571,
        color: ColorPair::new(Rgba::white(), Rgba::black()),
        glyph,
        scale: PointF::new(2000, 500),
    };
    // column x of the block stands at (x + 2) cells, moved by (x + 1) * 0.1 + x * 0.05 + 0.5
    // row y stands at (y + 1) cells, moved by y * 0.2 - 0.25
    assert_eq!(
        commands_of(&batch),
        vec![
            fancy(2600, 750, 97),
            fancy(3750, 750, 98),
            fancy(4900, 750, 0),
            fancy(2600, 1950, 100),
            fancy(3750, 1950, 101),
            fancy(4900, 1950, 0),
        ]
    );
}

#[test]
fn draw_batch_keeps_order() {
    let mut batch = DrawBatch::new();
    assert_eq!(batch.len(), 0);
    assert_eq!(batch.get(0), None);
    let color = ColorPair::new(Rgba::white(), Rgba::black());
    batch.set_fancy(PointF::new(1, 2), 3, 4, PointF::new(5, 6), color, 7);
    batch.push(set_command(1, 1, 1));
    assert_eq!(
        batch.get(0),
        Some(DrawCommand::SetFancy {
            position: PointF::new(1, 2),
            z_order: 3,
            rotation: 4,
            color,
            glyph: 7,
            scale: PointF::new(5, 6),
        })
    );
    assert_eq!(batch.get(1), Some(set_command(1, 1, 1)));
    assert_eq!(color.fg, Rgba::from_u8(255, 255, 255, 255));
    assert_eq!(color.bg, Rgba::from_u8(0, 0, 0, 255));
}
