//! The picture of a run: a grid of characters, one for each cell of the
//! screen, on which the clouds, the ground, the player and the obstacles are
//! drawn in that order.

use vstd::prelude::*;
use crate::collision::{ground_line, ground_row, minus, DINO_COLUMN};
use crate::config::Cfg;
use crate::types::{Cloud, DinoState, Obstacle, ObstacleType};
use crate::units::{cell_of, to_cell};

verus! {

/// The characters of a grid, row by row.
pub open spec fn cells(screen: Seq<Vec<char>>) -> Seq<Seq<char>> {
    Seq::new(screen.len(), |row: int| screen[row]@)
}

/// The lines of a sprite as rows of characters.
pub open spec fn lines_of(art: Seq<&'static str>) -> Seq<Seq<char>> {
    Seq::new(art.len(), |line: int| art[line]@)
}

/// The grid has `height` rows of `width` characters.
pub open spec fn rectangular(grid: Seq<Seq<char>>, width: usize, height: usize) -> bool {
    &&& grid.len() == height
    &&& forall|row: int| 0 <= row < height ==> (#[trigger] grid[row]).len() == width
}

/// The character at `row` and `column` once a sprite is drawn with its top
/// left corner at `top` and `left`: the sprite's character where the sprite
/// covers the cell above the row `row_limit`, and the character `before`
/// elsewhere. A sprite that is not opaque lets `before` show through its
/// spaces.
pub open spec fn sprite_cell(
    before: char,
    sprite: Seq<Seq<char>>,
    left: int,
    top: int,
    row_limit: int,
    opaque: bool,
    row: int,
    column: int,
) -> char {
    let line = row - top;
    let place = column - left;
    if 0 <= line < sprite.len() && row < row_limit && 0 <= place < sprite[line].len() && (opaque
        || sprite[line][place] != ' ') {
        sprite[line][place]
    } else {
        before
    }
}

/// The grid once a sprite is drawn on it.
pub open spec fn with_sprite(
    grid: Seq<Seq<char>>,
    sprite: Seq<Seq<char>>,
    left: int,
    top: int,
    row_limit: int,
    opaque: bool,
) -> Seq<Seq<char>> {
    Seq::new(
        grid.len(),
        |row: int|
            Seq::new(
                grid[row].len(),
                |column: int|
                    sprite_cell(
                        grid[row][column],
                        sprite,
                        left,
                        top,
                        row_limit,
                        opaque,
                        row,
                        column,
                    ),
            ),
    )
}

/// A grid of `height` rows of `width` spaces.
pub fn blank_screen(width: usize, height: usize) -> (screen: Vec<Vec<char>>)
    ensures
        rectangular(cells(screen@), width, height),
        forall|row: int, column: int|
            0 <= row < height && 0 <= column < width ==> #[trigger] cells(screen@)[row][column]
                == ' ',
{
    let mut screen: Vec<Vec<char>> = Vec::new();
    let mut made: usize = 0;
    while made < height
        invariant
            made <= height,
            screen@.len() == made,
            forall|row: int| 0 <= row < made ==> (#[trigger] screen@[row])@.len() == width,
            forall|row: int, column: int|
                0 <= row < made && 0 <= column < width ==> #[trigger] screen@[row]@[column] == ' ',
        decreases height - made,
    {
        let mut line: Vec<char> = Vec::new();
        let mut filled: usize = 0;
        while filled < width
            invariant
                filled <= width,
                line@.len() == filled,
                forall|column: int| 0 <= column < filled ==> line@[column] == ' ',
            decreases width - filled,
        {
            line.push(' ');
            filled += 1;
        }
        screen.push(line);
        made += 1;
    }
    screen
}

/// Writes one character of the grid.
pub fn set_cell(screen: &mut Vec<Vec<char>>, row: usize, column: usize, ch: char)
    requires
        row < old(screen)@.len(),
        column < old(screen)@[row as int]@.len(),
    ensures
        cells(final(screen)@) == cells(old(screen)@).update(
            row as int,
            old(screen)@[row as int]@.update(column as int, ch),
        ),
        final(screen)@.len() == old(screen)@.len(),
        final(screen)@[row as int]@ == old(screen)@[row as int]@.update(column as int, ch),
        forall|other: int|
            0 <= other < old(screen)@.len() && other != row ==> (#[trigger] final(screen)@[other])@
                == old(screen)@[other]@,
{
    screen[row][column] = ch;
}

/// Draws a sprite on the grid with its top left corner at `top` and `left`,
/// on the rows above `row_limit`. What falls off the grid is not drawn.
pub fn blit(
    screen: &mut Vec<Vec<char>>,
    art: &Vec<&'static str>,
    left: usize,
    top: usize,
    row_limit: usize,
    opaque: bool,
)
    ensures
        cells(final(screen)@) == with_sprite(
            cells(old(screen)@),
            lines_of(art@),
            left as int,
            top as int,
            row_limit as int,
            opaque,
        ),
{
    let ghost before = cells(screen@);
    let ghost sprite = lines_of(art@);
    let mut line: usize = 0;
    while line < art.len()
        invariant
            line <= art.len(),
            sprite == lines_of(art@),
            before == cells(old(screen)@),
            screen@.len() == before.len(),
            forall|row: int|
                0 <= row < before.len() ==> (#[trigger] screen@[row])@.len() == before[row].len(),
            forall|row: int, column: int|
                0 <= row < before.len() && 0 <= column < before[row].len()
                    ==> #[trigger] screen@[row]@[column] == if row - top < line {
                    sprite_cell(
                        before[row][column],
                        sprite,
                        left as int,
                        top as int,
                        row_limit as int,
                        opaque,
                        row,
                        column,
                    )
                } else {
                    before[row][column]
                },
        decreases art.len() - line,
    {
        let text = art[line];
        let row = top.checked_add(line);
        if row.is_some() && row.unwrap() < row_limit && row.unwrap() < screen.len() {
            let row = row.unwrap();
            let length = text.unicode_len();
            let mut place: usize = 0;
            while place < length
                invariant
                    place <= length,
                    length == text@.len(),
                    line < art.len(),
                    text == art@[line as int],
                    sprite == lines_of(art@),
                    row == top + line,
                    row < row_limit,
                    row < screen@.len(),
                    before == cells(old(screen)@),
                    screen@.len() == before.len(),
                    forall|r: int|
                        0 <= r < before.len() ==> (#[trigger] screen@[r])@.len() == before[r].len(),
                    forall|r: int, column: int|
                        0 <= r < before.len() && 0 <= column < before[r].len()
                            ==> #[trigger] screen@[r]@[column] == if r - top < line || (r == row
                            && column - left < place) {
                            sprite_cell(
                                before[r][column],
                                sprite,
                                left as int,
                                top as int,
                                row_limit as int,
                                opaque,
                                r,
                                column,
                            )
                        } else {
                            before[r][column]
                        },
                decreases length - place,
            {
                let ch = text.get_char(place);
                let column = left.checked_add(place);
                let ghost earlier = screen@;
                let width = screen[row].len();
                if column.is_some() && column.unwrap() < width && (opaque || ch != ' ') {
                    set_cell(screen, row, column.unwrap(), ch);
                }
                assert forall|r: int, c: int|
                    0 <= r < before.len() && 0 <= c < before[r].len() implies #[trigger] screen@[r]@[c]
                    == if r - top < line || (r == row && c - left < place + 1) {
                    sprite_cell(
                        before[r][c],
                        sprite,
                        left as int,
                        top as int,
                        row_limit as int,
                        opaque,
                        r,
                        c,
                    )
                } else {
                    before[r][c]
                } by {
                    assert(earlier[r]@.len() == before[r].len());
                    assert(sprite[line as int] == text@);
                    if r == row && c == left + place {
                        assert(c < width);
                        assert(earlier[r]@[c] == before[r][c]);
                    } else {
                        assert(screen@[r]@[c] == earlier[r]@[c]);
                    }
                }
                place += 1;
            }
        }
        line += 1;
    }
    assert(cells(screen@) =~~= with_sprite(
        before,
        sprite,
        left as int,
        top as int,
        row_limit as int,
        opaque,
    ));
}

/// The picture of a cloud.
pub open spec fn cloud_sprite() -> Seq<Seq<char>> {
    seq![
        "  .--.  "@,
        " (    ) "@,
        "(_.____)"@,
    ]
}

/// The picture of the player, standing or crouching.
pub open spec fn dino_sprite(state: DinoState) -> Seq<Seq<char>> {
    if state == DinoState::Crouching {
        seq![
            "               "@,
            "               "@,
            "⢠⣀⢀⠀⣀⣀⣀⣀⡀⣀⡠⣄⣤⣠⡀"@,
            "⠀⠹⢿⣿⣿⣿⣿⣿⣿⣿⣿⣿⠿⡿⡇"@,
            "⠀⠀⠈⢹⠻⣿⠟⠛⡏⠉⠙⠋⠒⠂⠀"@,
            "⠀⠀⠀⠈⠐⠇⠀⠀⠁⠁⠀⠀⠀⠀ "@,
        ]
    } else {
        seq![
            "          "@,
            "     ⣾⣽⣿⣿⡇"@,
            "⢀   ⢀⣿⣿⠯  "@,
            "⢸⣦⣤⣾⣿⣿⣿    "@,
            " ⠙⢿⣿⣿⡿⠃   "@,
            "  ⠸ ⠈⠇    "@,
        ]
    }
}

/// The picture of each class of obstacle.
pub open spec fn obstacle_sprite(kind: ObstacleType) -> Seq<Seq<char>> {
    match kind {
        ObstacleType::SmallCactus => seq![
            "|||"@,
            "|||"@,
        ],
        ObstacleType::MediumCactus => seq![
            " | "@,
            "/|\\"@,
            " | "@,
        ],
        ObstacleType::TallCactus => seq![
            "  |  "@,
            " \\|/ "@,
            "  |  "@,
            " /|\\ "@,
        ],
        ObstacleType::WideCactus => seq![
            " | | "@,
            "/|\\|/\\"@,
            " | | "@,
        ],
        _ => seq![
            " ^   ^ "@,
            "<(o.o)>"@,
            "  \\_/  "@,
        ],
    }
}

/// The lines of the picture of a cloud.
pub fn cloud_art() -> (art: Vec<&'static str>)
    ensures
        lines_of(art@) == cloud_sprite(),
{
    let mut art: Vec<&'static str> = Vec::new();
    art.push("  .--.  ");
    art.push(" (    ) ");
    art.push("(_.____)");
    art
}

/// The lines of the picture of the player.
pub fn dino_art(state: DinoState) -> (art: Vec<&'static str>)
    ensures
        lines_of(art@) == dino_sprite(state),
{
    let mut art: Vec<&'static str> = Vec::new();
    match state {
        DinoState::Crouching => {
            art.push("               ");
            art.push("               ");
            art.push("⢠⣀⢀⠀⣀⣀⣀⣀⡀⣀⡠⣄⣤⣠⡀");
            art.push("⠀⠹⢿⣿⣿⣿⣿⣿⣿⣿⣿⣿⠿⡿⡇");
            art.push("⠀⠀⠈⢹⠻⣿⠟⠛⡏⠉⠙⠋⠒⠂⠀");
            art.push("⠀⠀⠀⠈⠐⠇⠀⠀⠁⠁⠀⠀⠀⠀ ");
        },
        _ => {
            art.push("          ");
            art.push("     ⣾⣽⣿⣿⡇");
            art.push("⢀   ⢀⣿⣿⠯  ");
            art.push("⢸⣦⣤⣾⣿⣿⣿    ");
            art.push(" ⠙⢿⣿⣿⡿⠃   ");
            art.push("  ⠸ ⠈⠇    ");
        },
    }
    art
}

/// The lines of the picture of a class of obstacle.
pub fn obstacle_art(kind: ObstacleType) -> (art: Vec<&'static str>)
    ensures
        lines_of(art@) == obstacle_sprite(kind),
{
    let mut art: Vec<&'static str> = Vec::new();
    match kind {
        ObstacleType::SmallCactus => {
            art.push("|||");
            art.push("|||");
        },
        ObstacleType::MediumCactus => {
            art.push(" | ");
            art.push("/|\\");
            art.push(" | ");
        },
        ObstacleType::TallCactus => {
            art.push("  |  ");
            art.push(" \\|/ ");
            art.push("  |  ");
            art.push(" /|\\ ");
        },
        ObstacleType::WideCactus => {
            art.push(" | | ");
            art.push("/|\\|/\\");
            art.push(" | | ");
        },
        _ => {
            art.push(" ^   ^ ");
            art.push("<(o.o)>");
            art.push("  \\_/  ");
        },
    }
    art
}

/// The character of the ground line.
pub const GROUND_LINE: char = '─';

/// A cloud shows where it stands more than six columns left of the right
/// edge and more than two rows above the bottom.
pub open spec fn cloud_shows(cloud: Cloud, width: usize, height: usize) -> bool {
    cell_of(cloud.x as int) < minus(width, 6) && cloud.y < minus(height, 2)
}

/// The grid once a cloud is drawn on it.
pub open spec fn with_cloud(
    grid: Seq<Seq<char>>,
    cloud: Cloud,
    width: usize,
    height: usize,
) -> Seq<Seq<char>> {
    if cloud_shows(cloud, width, height) {
        with_sprite(
            grid,
            cloud_sprite(),
            cell_of(cloud.x as int) as int,
            cloud.y as int,
            height as int,
            true,
        )
    } else {
        grid
    }
}

/// The grid once the clouds are drawn on it, the first cloud first.
pub open spec fn with_clouds(
    grid: Seq<Seq<char>>,
    clouds: Seq<Cloud>,
    width: usize,
    height: usize,
) -> Seq<Seq<char>>
    decreases clouds.len(),
{
    if clouds.len() == 0 {
        grid
    } else {
        with_cloud(with_clouds(grid, clouds.drop_last(), width, height), clouds.last(), width, height)
    }
}

/// The character at `row` and `column` once the ground is drawn: the ground
/// line on the row `ground_y`, a dot in every third column of the row
/// below it and spaces between the dots.
pub open spec fn ground_cell(before: char, ground_y: int, row: int, column: int) -> char {
    if row == ground_y {
        GROUND_LINE
    } else if row == ground_y + 1 {
        if column % 3 == 0 {
            '.'
        } else {
            ' '
        }
    } else {
        before
    }
}

/// The grid once the ground is drawn on it.
pub open spec fn with_ground(grid: Seq<Seq<char>>, ground_y: usize) -> Seq<Seq<char>> {
    Seq::new(
        grid.len(),
        |row: int|
            Seq::new(
                grid[row].len(),
                |column: int| ground_cell(grid[row][column], ground_y as int, row, column),
            ),
    )
}

/// The grid once the player is drawn on it: its picture stands in the
/// player's column, six rows above the ground line less the whole cells of
/// its height, and shows above the ground line only.
pub open spec fn with_dino(
    grid: Seq<Seq<char>>,
    state: DinoState,
    dino_y: i64,
    ground_y: usize,
) -> Seq<Seq<char>> {
    with_sprite(
        grid,
        dino_sprite(state),
        DINO_COLUMN as int,
        minus(minus(ground_y, 6), cell_of(dino_y as int)) as int,
        ground_y as int,
        false,
    )
}

/// The grid once an obstacle is drawn on it: nothing where the obstacle
/// stands right of the screen; else its picture, as high above the ground
/// line as its box. A cactus shows above the ground line only.
pub open spec fn with_obstacle(
    grid: Seq<Seq<char>>,
    obstacle: Obstacle,
    width: usize,
    ground_y: usize,
) -> Seq<Seq<char>> {
    let kind = obstacle.obstacle_type;
    if cell_of(obstacle.x as int) >= width {
        grid
    } else {
        with_sprite(
            grid,
            obstacle_sprite(kind),
            cell_of(obstacle.x as int) as int,
            minus(ground_y, kind.shape().rise) as int,
            if kind.is_pterodactyl() {
                grid.len() as int
            } else {
                ground_y as int
            },
            false,
        )
    }
}

/// The grid once the obstacles are drawn on it, the first obstacle first.
pub open spec fn with_obstacles(
    grid: Seq<Seq<char>>,
    obstacles: Seq<Obstacle>,
    width: usize,
    ground_y: usize,
) -> Seq<Seq<char>>
    decreases obstacles.len(),
{
    if obstacles.len() == 0 {
        grid
    } else {
        with_obstacle(
            with_obstacles(grid, obstacles.drop_last(), width, ground_y),
            obstacles.last(),
            width,
            ground_y,
        )
    }
}

/// Drawing clouds leaves the grid its size.
pub proof fn lemma_clouds_keep_size(
    grid: Seq<Seq<char>>,
    clouds: Seq<Cloud>,
    width: usize,
    height: usize,
    columns: usize,
    rows: usize,
)
    requires
        rectangular(grid, columns, rows),
    ensures
        rectangular(with_clouds(grid, clouds, width, height), columns, rows),
    decreases clouds.len(),
{
    if clouds.len() > 0 {
        lemma_clouds_keep_size(grid, clouds.drop_last(), width, height, columns, rows);
    }
}

/// Drawing obstacles leaves the grid its size.
pub proof fn lemma_obstacles_keep_size(
    grid: Seq<Seq<char>>,
    obstacles: Seq<Obstacle>,
    width: usize,
    ground_y: usize,
    columns: usize,
    rows: usize,
)
    requires
        rectangular(grid, columns, rows),
    ensures
        rectangular(with_obstacles(grid, obstacles, width, ground_y), columns, rows),
    decreases obstacles.len(),
{
    if obstacles.len() > 0 {
        lemma_obstacles_keep_size(grid, obstacles.drop_last(), width, ground_y, columns, rows);
    }
}

/// What there is to draw of a run.
pub struct DrawArgs<'a> {
    pub dino_state: DinoState,
    pub dino_y: i64,
    pub obstacles: &'a [Obstacle],
    pub clouds: &'a [Cloud],
    pub score: usize,
    pub highscore: usize,
    pub speed: i64,
}

impl<'a> DrawArgs<'a> {
    pub fn new(
        dino_state: DinoState,
        dino_y: i64,
        obstacles: &'a [Obstacle],
        clouds: &'a [Cloud],
        score: usize,
        highscore: usize,
        speed: i64,
    ) -> (args: Self)
        ensures
            args.dino_state == dino_state,
            args.dino_y == dino_y,
            args.obstacles@ == obstacles@,
            args.clouds@ == clouds@,
            args.score == score,
            args.highscore == highscore,
            args.speed == speed,
    {
        Self { dino_state, dino_y, obstacles, clouds, score, highscore, speed }
    }
}

/// Draws a run on a screen of a given size.
pub struct Renderer {
    cfg: Cfg,
    width: usize,
    height: usize,
}

impl Renderer {
    /// The columns of the screen.
    pub closed spec fn columns(&self) -> usize {
        self.width
    }

    /// The rows of the screen.
    pub closed spec fn rows(&self) -> usize {
        self.height
    }

    /// The configuration drawn under.
    pub closed spec fn config(&self) -> Cfg {
        self.cfg
    }

    /// The row of the ground line.
    pub open spec fn ground_y(&self) -> usize {
        ground_row(self.rows(), self.config().physics.ground_height)
    }

    /// The picture of a run: on a blank screen, the clouds, then the ground,
    /// then the player, then the obstacles.
    pub open spec fn picture(
        &self,
        dino_state: DinoState,
        dino_y: i64,
        obstacles: Seq<Obstacle>,
        clouds: Seq<Cloud>,
    ) -> Seq<Seq<char>> {
        let blank = Seq::new(
            self.rows() as nat,
            |row: int| Seq::new(self.columns() as nat, |column: int| ' '),
        );
        with_obstacles(
            with_dino(
                with_ground(
                    with_clouds(blank, clouds, self.columns(), self.rows()),
                    self.ground_y(),
                ),
                dino_state,
                dino_y,
                self.ground_y(),
            ),
            obstacles,
            self.columns(),
            self.ground_y(),
        )
    }

    pub fn new(cfg: Cfg, width: usize, height: usize) -> (renderer: Self)
        ensures
            renderer.config() == cfg,
            renderer.columns() == width,
            renderer.rows() == height,
    {
        Self { cfg, width, height }
    }

    pub fn update_dimensions(&mut self, width: usize, height: usize)
        ensures
            final(self).config() == old(self).config(),
            final(self).columns() == width,
            final(self).rows() == height,
    {
        self.width = width;
        self.height = height;
    }

    /// The columns of the screen.
    pub fn width(&self) -> (width: usize)
        ensures
            width == self.columns(),
    {
        self.width
    }

    /// The rows of the screen.
    pub fn height(&self) -> (height: usize)
        ensures
            height == self.rows(),
    {
        self.height
    }

    /// Draws the picture of a run.
    pub fn draw(&self, draw_args: DrawArgs) -> (screen: Vec<Vec<char>>)
        ensures
            cells(screen@) == self.picture(
                draw_args.dino_state,
                draw_args.dino_y,
                draw_args.obstacles@,
                draw_args.clouds@,
            ),
            rectangular(cells(screen@), self.columns(), self.rows()),
    {
        let mut screen = blank_screen(self.width, self.height);
        assert(cells(screen@) =~~= Seq::new(
            self.rows() as nat,
            |row: int| Seq::new(self.columns() as nat, |column: int| ' '),
        ));
        proof {
            lemma_clouds_keep_size(
                cells(screen@),
                draw_args.clouds@,
                self.columns(),
                self.rows(),
                self.columns(),
                self.rows(),
            );
        }
        self.draw_clouds(&mut screen, draw_args.clouds);
        self.draw_ground(&mut screen);
        self.draw_dino(&mut screen, draw_args.dino_state, draw_args.dino_y);
        proof {
            lemma_obstacles_keep_size(
                cells(screen@),
                draw_args.obstacles@,
                self.columns(),
                self.ground_y(),
                self.columns(),
                self.rows(),
            );
        }
        self.draw_obstacles(&mut screen, draw_args.obstacles);
        screen
    }

    /// Draws the clouds.
    pub fn draw_clouds(&self, screen: &mut Vec<Vec<char>>, clouds: &[Cloud])
        ensures
            cells(final(screen)@) == with_clouds(
                cells(old(screen)@),
                clouds@,
                self.columns(),
                self.rows(),
            ),
    {
        let art = cloud_art();
        let mut i: usize = 0;
        assert(clouds@.take(0) == Seq::<Cloud>::empty());
        while i < clouds.len()
            invariant
                i <= clouds.len(),
                lines_of(art@) == cloud_sprite(),
                cells(screen@) == with_clouds(
                    cells(old(screen)@),
                    clouds@.take(i as int),
                    self.columns(),
                    self.rows(),
                ),
            decreases clouds.len() - i,
        {
            let cloud = clouds[i];
            proof {
                let seen = clouds@.take(i + 1);
                assert(seen.drop_last() == clouds@.take(i as int));
                assert(seen.last() == cloud);
            }
            let x = to_cell(cloud.x);
            if x < self.width.saturating_sub(6) && cloud.y < self.height.saturating_sub(2) {
                blit(screen, &art, x, cloud.y, self.height, true);
            }
            i += 1;
        }
        assert(clouds@.take(i as int) == clouds@);
    }

    /// Draws the ground.
    pub fn draw_ground(&self, screen: &mut Vec<Vec<char>>)
        ensures
            cells(final(screen)@) == with_ground(cells(old(screen)@), self.ground_y()),
    {
        let ground_y = ground_line(self.height, self.cfg.physics.ground_height);
        let ghost before = cells(screen@);
        let mut row: usize = 0;
        while row < screen.len()
            invariant
                row <= screen@.len(),
                ground_y == self.ground_y(),
                screen@.len() == before.len(),
                forall|r: int|
                    0 <= r < before.len() ==> (#[trigger] screen@[r])@.len() == before[r].len(),
                forall|r: int, c: int|
                    0 <= r < before.len() && 0 <= c < before[r].len() ==> #[trigger] screen@[r]@[c]
                        == if r < row {
                        ground_cell(before[r][c], ground_y as int, r, c)
                    } else {
                        before[r][c]
                    },
            decreases screen@.len() - row,
        {
            let width = screen[row].len();
            if row >= ground_y && row - ground_y <= 1 {
                let mut column: usize = 0;
                while column < width
                    invariant
                        column <= width,
                        row < screen@.len(),
                        width == screen@[row as int]@.len(),
                        row >= ground_y && row - ground_y <= 1,
                        screen@.len() == before.len(),
                        forall|r: int|
                            0 <= r < before.len() ==> (#[trigger] screen@[r])@.len()
                                == before[r].len(),
                        forall|r: int, c: int|
                            0 <= r < before.len() && 0 <= c < before[r].len()
                                ==> #[trigger] screen@[r]@[c] == if r < row || (r == row && c
                                < column) {
                                ground_cell(before[r][c], ground_y as int, r, c)
                            } else {
                                before[r][c]
                            },
                    decreases width - column,
                {
                    let ch = if row == ground_y {
                        GROUND_LINE
                    } else if column % 3 == 0 {
                        '.'
                    } else {
                        ' '
                    };
                    let ghost earlier = screen@;
                    set_cell(screen, row, column, ch);
                    assert forall|r: int, c: int|
                        0 <= r < before.len() && 0 <= c < before[r].len() implies #[trigger] screen@[r]@[c]
                        == if r < row || (r == row && c < column + 1) {
                        ground_cell(before[r][c], ground_y as int, r, c)
                    } else {
                        before[r][c]
                    } by {
                        assert(earlier[r]@.len() == before[r].len());
                        if !(r == row && c == column) {
                            assert(screen@[r]@[c] == earlier[r]@[c]);
                        }
                    }
                    column += 1;
                }
            }
            row += 1;
        }
        assert(cells(screen@) =~~= with_ground(before, ground_y));
    }

    /// Draws the player.
    pub fn draw_dino(&self, screen: &mut Vec<Vec<char>>, state: DinoState, dino_y: i64)
        ensures
            cells(final(screen)@) == with_dino(cells(old(screen)@), state, dino_y, self.ground_y()),
    {
        let ground_y = ground_line(self.height, self.cfg.physics.ground_height);
        let top = ground_y.saturating_sub(6).saturating_sub(to_cell(dino_y));
        let art = dino_art(state);
        blit(screen, &art, DINO_COLUMN, top, ground_y, false);
    }

    /// Draws one obstacle.
    pub fn draw_obstacle(&self, screen: &mut Vec<Vec<char>>, obstacle: &Obstacle)
        ensures
            cells(final(screen)@) == with_obstacle(
                cells(old(screen)@),
                *obstacle,
                self.columns(),
                self.ground_y(),
            ),
    {
        let ground_y = ground_line(self.height, self.cfg.physics.ground_height);
        let x = to_cell(obstacle.x);
        if x >= self.width {
            return ;
        }
        let kind = obstacle.obstacle_type;
        let art = obstacle_art(kind);
        let top = ground_y.saturating_sub(kind.hitbox().rise);
        match kind {
            ObstacleType::PterodactylLow | ObstacleType::PterodactylMid | ObstacleType::PterodactylHigh => {
                let rows = screen.len();
                blit(screen, &art, x, top, rows, false);
            },
            _ => {
                blit(screen, &art, x, top, ground_y, false);
            },
        }
    }

    /// Draws the obstacles.
    pub fn draw_obstacles(&self, screen: &mut Vec<Vec<char>>, obstacles: &[Obstacle])
        ensures
            cells(final(screen)@) == with_obstacles(
                cells(old(screen)@),
                obstacles@,
                self.columns(),
                self.ground_y(),
            ),
    {
        let mut i: usize = 0;
        assert(obstacles@.take(0) == Seq::<Obstacle>::empty());
        while i < obstacles.len()
            invariant
                i <= obstacles.len(),
                cells(screen@) == with_obstacles(
                    cells(old(screen)@),
                    obstacles@.take(i as int),
                    self.columns(),
                    self.ground_y(),
                ),
            decreases obstacles.len() - i,
        {
            proof {
                let seen = obstacles@.take(i + 1);
                assert(seen.drop_last() == obstacles@.take(i as int));
                assert(seen.last() == obstacles@[i as int]);
            }
            self.draw_obstacle(screen, &obstacles[i]);
            i += 1;
        }
        assert(obstacles@.take(i as int) == obstacles@);
    }
}

} // verus!
