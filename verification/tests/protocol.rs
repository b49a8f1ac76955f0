use std::cell::RefCell;

use laser_pdf::element::usage_of_measured;
use laser_pdf::elements::h_center::{HCenter, ShiftedResolver};
use laser_pdf::elements::none::NoneElement;
use laser_pdf::serde_elements::SerdeElement;
use laser_pdf::test_utils::{run_element, BreakRecorder, Pages};
use laser_pdf::{
    translate, BreakableDraw, BreakableMeasure, DrawCtx, Element, ElementSize,
    FirstLocationUsage, FirstLocationUsageCtx, InsufficientFirstHeightCtx, LayerHandle, Length,
    Location, LocationResolver, MeasureCtx, WidthConstraint, LENGTH_MAX, UNITS_PER_MM,
};

/// Millimetres as a length of the library.
fn mm(v: f64) -> Length {
    (v * 1000.0).round() as Length
}

#[test]
fn a_millimetre_has_a_thousand_units() {
    assert_eq!(UNITS_PER_MM, 1000);
    assert_eq!(mm(2.5), 2_500);
    assert_eq!(LENGTH_MAX, (1 << 61) - 1);
}

#[test]
fn constrain_fills_the_width_when_expanding() {
    let width = WidthConstraint { max: mm(10.), expand: true };
    assert_eq!(width.constrain(mm(5.)), mm(10.));
    assert_eq!(width.constrain(mm(10.)), mm(10.));
    assert_eq!(width.constrain(mm(15.)), mm(10.));
    assert_eq!(width.constrain(0), mm(10.));
}

#[test]
fn constrain_keeps_a_narrower_width_and_cuts_a_wider_one() {
    let width = WidthConstraint { max: mm(10.), expand: false };
    assert_eq!(width.constrain(mm(5.)), mm(5.));
    assert_eq!(width.constrain(mm(10.)), mm(10.));
    assert_eq!(width.constrain(mm(10.001)), mm(10.));
    assert_eq!(width.constrain(0), 0);
}

#[test]
fn translate_adds_exactly() {
    assert_eq!(translate(mm(12.), mm(2.5)), mm(14.5));
    assert_eq!(translate(mm(29.), -mm(6.)), mm(23.));
    assert_eq!(translate(0, 0), 0);
    assert_eq!(translate(-mm(1.), -501), -1_501);
    assert_eq!(translate(LENGTH_MAX, -2 * LENGTH_MAX), -LENGTH_MAX);
    assert_eq!(translate(-LENGTH_MAX, 2 * LENGTH_MAX), LENGTH_MAX);
    assert_eq!(translate(LENGTH_MAX - 1, 1), LENGTH_MAX);
}

#[test]
fn a_measurement_is_read_as_the_use_of_the_first_frame() {
    let sized = Some(ElementSize { width: 1, height: Some(1) });
    let endless = Some(ElementSize { width: 1, height: None });
    assert_eq!(usage_of_measured(0, sized), FirstLocationUsage::WillUse);
    assert_eq!(usage_of_measured(1, sized), FirstLocationUsage::WillSkip);
    assert_eq!(usage_of_measured(5, endless), FirstLocationUsage::WillSkip);
    assert_eq!(usage_of_measured(0, endless), FirstLocationUsage::NoneHeight);
    assert_eq!(usage_of_measured(0, None), FirstLocationUsage::NoneHeight);
    assert_eq!(usage_of_measured(2, None), FirstLocationUsage::WillSkip);
}

/// What a block was drawn with.
#[derive(Debug, PartialEq, Clone, Copy)]
struct Drawn {
    location: Location,
    width: WidthConstraint,
    first_height: Length,
    preferred_height: Option<Length>,
    breakable: bool,
}

/// A block that measures and draws as it is told, asks for the frames it is
/// told to ask for, and notes what each draw pass and each other question
/// came with. It works on any surface.
struct Block {
    measured: Option<ElementSize>,
    drawn: Option<ElementSize>,
    breaks: u32,
    asks: Vec<u32>,
    draws: RefCell<Vec<Drawn>>,
    frames: RefCell<Vec<Location>>,
    measures: RefCell<Vec<(WidthConstraint, Length, Option<Length>)>>,
    questions: RefCell<Vec<WidthConstraint>>,
}

impl Block {
    fn new(measured: Option<ElementSize>, drawn: Option<ElementSize>) -> Self {
        Block {
            measured,
            drawn,
            breaks: 0,
            asks: Vec::new(),
            draws: RefCell::new(Vec::new()),
            frames: RefCell::new(Vec::new()),
            measures: RefCell::new(Vec::new()),
            questions: RefCell::new(Vec::new()),
        }
    }

    fn sized(width: f64, height: f64) -> Self {
        let size = Some(ElementSize { width: mm(width), height: Some(mm(height)) });
        Block::new(size, size)
    }
}

impl<S> Element<S> for Block {
    fn first_location_usage(&self, ctx: FirstLocationUsageCtx) -> FirstLocationUsage {
        self.questions.borrow_mut().push(ctx.width);
        FirstLocationUsage::WillUse
    }

    fn insufficient_first_height(&self, ctx: InsufficientFirstHeightCtx) -> bool {
        self.questions.borrow_mut().push(ctx.width);
        ctx.first_height < mm(1.)
    }

    fn measure(&self, ctx: MeasureCtx) -> Option<ElementSize> {
        self.measures.borrow_mut().push((
            ctx.width,
            ctx.first_height,
            ctx.breakable.as_ref().map(|b| b.full_height),
        ));
        if let Some(b) = ctx.breakable {
            if self.breaks > 0 {
                *b.break_count = self.breaks;
            }
        }
        self.measured
    }

    fn draw<R: LocationResolver<S>>(
        &self,
        ctx: DrawCtx<'_, S, R>,
    ) -> (Option<ElementSize>, Option<R>) {
        self.draws.borrow_mut().push(Drawn {
            location: ctx.location,
            width: ctx.width,
            first_height: ctx.first_height,
            preferred_height: ctx.preferred_height,
            breakable: ctx.breakable.is_some(),
        });
        let resolver = ctx.breakable.map(|b| {
            let mut resolver = b.get_location;
            for frame_index in &self.asks {
                let location = resolver.get_location(ctx.surface, *frame_index);
                self.frames.borrow_mut().push(location);
            }
            resolver
        });
        (self.drawn, resolver)
    }
}

/// An element by reference.
struct Borrowed<'a, E>(&'a E);

impl<'a, S, E: Element<S>> Element<S> for Borrowed<'a, E> {
    fn first_location_usage(&self, ctx: FirstLocationUsageCtx) -> FirstLocationUsage {
        self.0.first_location_usage(ctx)
    }

    fn insufficient_first_height(&self, ctx: InsufficientFirstHeightCtx) -> bool {
        self.0.insufficient_first_height(ctx)
    }

    fn measure(&self, ctx: MeasureCtx) -> Option<ElementSize> {
        self.0.measure(ctx)
    }

    fn draw<R: LocationResolver<S>>(
        &self,
        ctx: DrawCtx<'_, S, R>,
    ) -> (Option<ElementSize>, Option<R>) {
        self.0.draw(ctx)
    }
}

/// Frames that start ten to the right of each other.
struct Stairs {
    requested: Vec<u32>,
}

impl LocationResolver<()> for Stairs {
    fn get_location(&mut self, _: &mut (), frame_index: u32) -> Location {
        self.requested.push(frame_index);
        Location {
            layer: LayerHandle { page: frame_index as u64 + 1, layer: 2 },
            pos: (mm(12.) + mm(10.) * frame_index as i64, mm(29.)),
        }
    }
}

fn start() -> Location {
    Location { layer: LayerHandle { page: 0, layer: 2 }, pos: (mm(12.), mm(29.)) }
}

fn draw_centered(
    block: Block,
    max: f64,
    expand: bool,
    breakable: bool,
) -> (Option<ElementSize>, Option<Stairs>, Block) {
    let element = HCenter(block);
    let (size, stairs) = element.draw(DrawCtx {
        surface: &mut (),
        location: start(),
        width: WidthConstraint { max: mm(max), expand },
        first_height: mm(21.),
        preferred_height: Some(mm(7.)),
        breakable: if breakable {
            Some(BreakableDraw {
                full_height: mm(26.),
                preferred_height_break_count: 3,
                get_location: Stairs { requested: vec![9] },
            })
        } else {
            None
        },
    });
    (size, stairs, element.0)
}

#[test]
fn centering_moves_the_start_and_every_frame_by_the_same_offset() {
    let mut block = Block::sized(5., 2.);
    block.asks = vec![0, 1, 4];
    let (size, stairs, block) = draw_centered(block, 10., true, true);

    assert_eq!(size, Some(ElementSize { width: mm(10.), height: Some(mm(2.)) }));
    assert_eq!(stairs.unwrap().requested, vec![9, 0, 1, 4]);
    assert_eq!(
        *block.draws.borrow(),
        vec![Drawn {
            location: Location {
                layer: LayerHandle { page: 0, layer: 2 },
                pos: (mm(12. + 2.5), mm(29.)),
            },
            width: WidthConstraint { max: mm(5.), expand: true },
            first_height: mm(21.),
            preferred_height: Some(mm(7.)),
            breakable: true,
        }]
    );
    assert_eq!(
        *block.frames.borrow(),
        vec![
            Location { layer: LayerHandle { page: 1, layer: 2 }, pos: (mm(12. + 2.5), mm(29.)) },
            Location { layer: LayerHandle { page: 2, layer: 2 }, pos: (mm(22. + 2.5), mm(29.)) },
            Location { layer: LayerHandle { page: 5, layer: 2 }, pos: (mm(52. + 2.5), mm(29.)) },
        ]
    );
    // The natural size is learnt from a measurement that does not expand and
    // has the heights of the draw pass.
    assert_eq!(
        *block.measures.borrow(),
        vec![(WidthConstraint { max: mm(10.), expand: false }, mm(21.), Some(mm(26.)))]
    );
}

#[test]
fn centering_without_frames_moves_the_start_only() {
    let (size, stairs, block) = draw_centered(Block::sized(5., 2.), 10., true, false);
    assert_eq!(size, Some(ElementSize { width: mm(10.), height: Some(mm(2.)) }));
    assert!(stairs.is_none());
    assert_eq!(block.draws.borrow()[0].location.pos, (mm(14.5), mm(29.)));
    assert!(!block.draws.borrow()[0].breakable);
    assert_eq!(
        *block.measures.borrow(),
        vec![(WidthConstraint { max: mm(10.), expand: false }, mm(21.), None)]
    );
}

#[test]
fn without_expand_the_pass_is_handed_on_as_it_is() {
    let mut block = Block::sized(5., 2.);
    block.asks = vec![0, 2];
    let (size, stairs, block) = draw_centered(block, 10., false, true);

    assert_eq!(size, Some(ElementSize { width: mm(5.), height: Some(mm(2.)) }));
    assert_eq!(stairs.unwrap().requested, vec![9, 0, 2]);
    assert_eq!(
        *block.draws.borrow(),
        vec![Drawn {
            location: start(),
            width: WidthConstraint { max: mm(10.), expand: false },
            first_height: mm(21.),
            preferred_height: Some(mm(7.)),
            breakable: true,
        }]
    );
    assert_eq!(
        *block.frames.borrow(),
        vec![
            Location { layer: LayerHandle { page: 1, layer: 2 }, pos: (mm(12.), mm(29.)) },
            Location { layer: LayerHandle { page: 3, layer: 2 }, pos: (mm(32.), mm(29.)) },
        ]
    );
    // Nothing is measured beforehand.
    assert!(block.measures.borrow().is_empty());
}

#[test]
fn content_without_a_measured_size_is_drawn_unmoved_at_full_width() {
    let drawn = Some(ElementSize { width: mm(5.), height: None });
    let mut block = Block::new(None, drawn);
    block.asks = vec![0];
    let (size, _, block) = draw_centered(block, 4., true, true);

    assert_eq!(size, Some(ElementSize { width: mm(4.), height: None }));
    assert_eq!(
        *block.draws.borrow(),
        vec![Drawn {
            location: start(),
            width: WidthConstraint { max: mm(4.), expand: true },
            first_height: mm(21.),
            preferred_height: Some(mm(7.)),
            breakable: true,
        }]
    );
    assert_eq!(
        *block.frames.borrow(),
        vec![Location { layer: LayerHandle { page: 1, layer: 2 }, pos: (mm(12.), mm(29.)) }]
    );
}

#[test]
fn content_with_a_width_and_no_height_is_not_centred() {
    let overdraw = Some(ElementSize { width: mm(5.), height: None });
    let mut block = Block::new(overdraw, overdraw);
    block.asks = vec![0];
    let (size, _, block) = draw_centered(block, 4., true, true);

    assert_eq!(size, Some(ElementSize { width: mm(4.), height: None }));
    assert_eq!(
        *block.draws.borrow(),
        vec![Drawn {
            location: start(),
            width: WidthConstraint { max: mm(4.), expand: true },
            first_height: mm(21.),
            preferred_height: Some(mm(7.)),
            breakable: true,
        }]
    );
    assert_eq!(
        *block.frames.borrow(),
        vec![Location { layer: LayerHandle { page: 1, layer: 2 }, pos: (mm(12.), mm(29.)) }]
    );

    // Neither is it where there is room to spare.
    let (size, _, block) = draw_centered(Block::new(overdraw, overdraw), 10., true, false);
    assert_eq!(size, Some(ElementSize { width: mm(10.), height: None }));
    assert_eq!(block.draws.borrow()[0].location, start());
    assert_eq!(block.draws.borrow()[0].width, WidthConstraint { max: mm(10.), expand: true });
}

#[test]
fn centering_offset_is_rounded_down() {
    // 5.001 of room leave 2.5 on the left and 2.501 on the right.
    let (_, _, block) = draw_centered(Block::sized(5., 2.), 10.001, true, false);
    assert_eq!(block.draws.borrow()[0].location.pos.0, mm(12.) + 2_500);
    // Content that is wider than the room by 1.001 sticks out by 0.501 on
    // the left and by 0.5 on the right.
    let (size, _, block) = draw_centered(Block::sized(5.001, 2.), 4., true, false);
    assert_eq!(block.draws.borrow()[0].location.pos.0, mm(12.) - 501);
    assert_eq!(block.draws.borrow()[0].width, WidthConstraint { max: 5_001, expand: true });
    assert_eq!(size, Some(ElementSize { width: mm(4.), height: Some(mm(2.)) }));
    // Content of exactly the offered width is not moved.
    let (_, _, block) = draw_centered(Block::sized(10., 2.), 10., true, false);
    assert_eq!(block.draws.borrow()[0].location.pos.0, mm(12.));
}

#[test]
fn measure_resolves_the_width_and_keeps_the_rest() {
    let mut block = Block::sized(5., 2.);
    block.breaks = 3;
    let element = HCenter(block);
    let measure = |max: f64, expand: bool| {
        let mut break_count = 0;
        let mut extra_location_min_height = Some(mm(1.));
        let size = Element::<()>::measure(
            &element,
            MeasureCtx {
                width: WidthConstraint { max: mm(max), expand },
                first_height: mm(1.),
                breakable: Some(BreakableMeasure {
                    full_height: mm(4.),
                    break_count: &mut break_count,
                    extra_location_min_height: &mut extra_location_min_height,
                }),
            },
        );
        (size, break_count, extra_location_min_height)
    };
    let high = Some(mm(2.));
    assert_eq!(
        measure(10., true),
        (Some(ElementSize { width: mm(10.), height: high }), 3, Some(mm(1.)))
    );
    assert_eq!(
        measure(10., false),
        (Some(ElementSize { width: mm(5.), height: high }), 3, Some(mm(1.)))
    );
    assert_eq!(
        measure(4., false),
        (Some(ElementSize { width: mm(4.), height: high }), 3, Some(mm(1.)))
    );
    assert_eq!(measure(10., true), measure(10., true));
    // The content is always measured without the demand to fill the width.
    assert!(element.0.measures.borrow().iter().all(|m| !m.0.expand));
    assert_eq!(element.0.measures.borrow()[0].0.max, mm(10.));
}

#[test]
fn insufficient_first_height_is_asked_of_the_content_without_expand() {
    let element = HCenter(Block::sized(5., 2.));
    let ctx = |first_height: f64| InsufficientFirstHeightCtx {
        width: WidthConstraint { max: mm(10.), expand: true },
        first_height: mm(first_height),
        full_height: mm(4.),
    };
    assert!(Element::<()>::insufficient_first_height(&element, ctx(0.5)));
    assert!(!Element::<()>::insufficient_first_height(&element, ctx(1.)));
    assert_eq!(
        *element.0.questions.borrow(),
        vec![
            WidthConstraint { max: mm(10.), expand: false },
            WidthConstraint { max: mm(10.), expand: false },
        ]
    );
}

#[test]
fn first_location_usage_is_read_from_a_measurement() {
    let ctx = FirstLocationUsageCtx {
        width: WidthConstraint { max: mm(10.), expand: true },
        first_height: mm(1.),
        full_height: mm(4.),
    };
    let fits = HCenter(Block::sized(5., 2.));
    assert_eq!(Element::<()>::first_location_usage(&fits, ctx), FirstLocationUsage::WillUse);
    assert_eq!(
        *fits.0.measures.borrow(),
        vec![(WidthConstraint { max: mm(10.), expand: false }, mm(1.), Some(mm(4.)))]
    );

    let mut block = Block::sized(5., 2.);
    block.breaks = 1;
    assert_eq!(
        Element::<()>::first_location_usage(&HCenter(block), ctx),
        FirstLocationUsage::WillSkip
    );

    let endless = Block::new(Some(ElementSize { width: mm(5.), height: None }), None);
    assert_eq!(
        Element::<()>::first_location_usage(&HCenter(endless), ctx),
        FirstLocationUsage::NoneHeight
    );
    assert_eq!(
        Element::<()>::first_location_usage(&HCenter(Block::new(None, None)), ctx),
        FirstLocationUsage::NoneHeight
    );
}

#[test]
fn a_shifted_resolver_moves_what_the_other_hands_out() {
    let mut shifted = ShiftedResolver { inner: Stairs { requested: vec![] }, x_offset: -mm(2.) };
    assert_eq!(
        shifted.get_location(&mut (), 3),
        Location { layer: LayerHandle { page: 4, layer: 2 }, pos: (mm(40.), mm(29.)) }
    );
    assert_eq!(
        shifted.get_location(&mut (), 0),
        Location { layer: LayerHandle { page: 1, layer: 2 }, pos: (mm(10.), mm(29.)) }
    );
    assert_eq!(shifted.inner.requested, vec![3, 0]);
    assert_eq!(shifted.x_offset, -mm(2.));
}

#[test]
fn the_break_recorder_adds_the_pages_that_are_missing() {
    let mut pages = Pages { count: 1 };
    let mut recorder = BreakRecorder { breaks: vec![], pos: (mm(2.5), mm(31.)) };
    assert_eq!(
        recorder.get_location(&mut pages, 0),
        Location { layer: LayerHandle { page: 1, layer: 0 }, pos: (mm(2.5), mm(31.)) }
    );
    assert_eq!(pages, Pages { count: 2 });
    assert_eq!(recorder.get_location(&mut pages, 2).layer, LayerHandle { page: 3, layer: 0 });
    assert_eq!(pages, Pages { count: 4 });
    assert_eq!(recorder.get_location(&mut pages, 1).layer, LayerHandle { page: 2, layer: 0 });
    assert_eq!(pages, Pages { count: 4 });
    assert_eq!(recorder.breaks, vec![0, 2, 1]);
    assert_eq!(
        recorder.get_location(&mut pages, u32::MAX).layer,
        LayerHandle { page: 1 << 32, layer: 0 }
    );
    assert_eq!(pages, Pages { count: (1 << 32) + 1 });
}

#[test]
fn run_element_reports_pages_breaks_and_size() {
    let stats = run_element(mm(10.), mm(21.), HCenter(Block::sized(5., 2.)));
    stats
        .assert_pages(1)
        .assert_breaks(vec![])
        .assert_linear()
        .assert_size(Some(ElementSize { width: mm(10.), height: Some(mm(2.)) }));

    let mut block = Block::sized(5., 2.);
    block.asks = vec![0, 1];
    let element = HCenter(block);
    let stats = run_element(mm(10.), mm(21.), Borrowed(&element));
    stats.assert_pages(3).assert_breaks(vec![0, 1]);
    // Every frame starts where the first one does, moved by the centring
    // offset, on the next page.
    assert_eq!(element.0.draws.borrow()[0].location.pos, (mm(2.5 + 2.5), mm(21. + 10.)));
    assert_eq!(element.0.draws.borrow()[0].location.layer, LayerHandle { page: 0, layer: 0 });
    assert_eq!(element.0.draws.borrow()[0].first_height, mm(21.));
    assert_eq!(
        *element.0.frames.borrow(),
        vec![
            Location { layer: LayerHandle { page: 1, layer: 0 }, pos: (mm(5.), mm(31.)) },
            Location { layer: LayerHandle { page: 2, layer: 0 }, pos: (mm(5.), mm(31.)) },
        ]
    );
}

#[test]
fn frames_counted_from_one_are_linear() {
    let mut block = Block::sized(5., 2.);
    block.asks = vec![1, 2, 3];
    let stats = run_element(mm(10.), mm(21.), block);
    stats.assert_linear().assert_breaks(vec![1, 2, 3]).assert_pages(5);
}

#[test]
fn the_empty_element_has_no_size_and_asks_for_nothing() {
    let mut break_count = 7;
    let mut extra_location_min_height = Some(mm(3.));
    let size = Element::<()>::measure(
        &NoneElement,
        MeasureCtx {
            width: WidthConstraint { max: mm(10.), expand: true },
            first_height: mm(21.),
            breakable: Some(BreakableMeasure {
                full_height: mm(26.),
                break_count: &mut break_count,
                extra_location_min_height: &mut extra_location_min_height,
            }),
        },
    );
    assert_eq!((size, break_count, extra_location_min_height), (None, 7, Some(mm(3.))));

    run_element(mm(10.), mm(21.), NoneElement)
        .assert_pages(1)
        .assert_breaks(vec![])
        .assert_linear()
        .assert_size(None);

    let ctx = FirstLocationUsageCtx {
        width: WidthConstraint { max: mm(10.), expand: true },
        first_height: mm(1.),
        full_height: mm(4.),
    };
    assert_eq!(
        Element::<()>::first_location_usage(&NoneElement, ctx),
        FirstLocationUsage::NoneHeight
    );
    assert!(!Element::<()>::insufficient_first_height(
        &NoneElement,
        InsufficientFirstHeightCtx {
            width: ctx.width,
            first_height: ctx.first_height,
            full_height: ctx.full_height,
        },
    ));
}

#[test]
fn a_described_element_goes_with_its_fonts() {
    let element = HCenter(Block::sized(5., 2.));
    let fonts = vec!["regular", "bold"];
    let described = SerdeElement { element: &element, fonts: &fonts };
    assert_eq!(described.fonts.len(), 2);
    assert_eq!(
        Element::<()>::measure(
            described.element,
            MeasureCtx {
                width: WidthConstraint { max: mm(10.), expand: true },
                first_height: mm(21.),
                breakable: None,
            },
        ),
        Some(ElementSize { width: mm(10.), height: Some(mm(2.)) })
    );
}
