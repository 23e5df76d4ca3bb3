//! Functional classification of electronic components: what electrical role
//! a component plays, from passive parts to integrated circuits.  Each
//! variant carries a free-form part-identifier string, e.g. a resistance
//! value or a device family name.

use vstd::prelude::*;

verus! {

/// The electrical role of a component, with a free-form part identifier.
#[derive(Clone, Debug)]
pub enum FunctionalType {
    Resistor(String),
    Capacitor(String),
    Inductor(String),
    Connector(String),
    Fuse(String),
    Protection(String),
    IntegratedCircuit(String),
    ADC(String),
    DAC(String),
    FPGA(String),
    MCU(String),
    LED(String),
    LCD(String),
    IsolationIC(String),
    OpAmp(String),
    Timer(String),
}

/// The mathematical image of a [`FunctionalType`]: the same variant with the
/// part identifier as a character sequence.
pub ghost enum FunctionalTypeView {
    Resistor(Seq<char>),
    Capacitor(Seq<char>),
    Inductor(Seq<char>),
    Connector(Seq<char>),
    Fuse(Seq<char>),
    Protection(Seq<char>),
    IntegratedCircuit(Seq<char>),
    ADC(Seq<char>),
    DAC(Seq<char>),
    FPGA(Seq<char>),
    MCU(Seq<char>),
    LED(Seq<char>),
    LCD(Seq<char>),
    IsolationIC(Seq<char>),
    OpAmp(Seq<char>),
    Timer(Seq<char>),
}

impl View for FunctionalType {
    type V = FunctionalTypeView;

    open spec fn view(&self) -> FunctionalTypeView {
        match self {
            FunctionalType::Resistor(s) => FunctionalTypeView::Resistor(s@),
            FunctionalType::Capacitor(s) => FunctionalTypeView::Capacitor(s@),
            FunctionalType::Inductor(s) => FunctionalTypeView::Inductor(s@),
            FunctionalType::Connector(s) => FunctionalTypeView::Connector(s@),
            FunctionalType::Fuse(s) => FunctionalTypeView::Fuse(s@),
            FunctionalType::Protection(s) => FunctionalTypeView::Protection(s@),
            FunctionalType::IntegratedCircuit(s) => FunctionalTypeView::IntegratedCircuit(s@),
            FunctionalType::ADC(s) => FunctionalTypeView::ADC(s@),
            FunctionalType::DAC(s) => FunctionalTypeView::DAC(s@),
            FunctionalType::FPGA(s) => FunctionalTypeView::FPGA(s@),
            FunctionalType::MCU(s) => FunctionalTypeView::MCU(s@),
            FunctionalType::LED(s) => FunctionalTypeView::LED(s@),
            FunctionalType::LCD(s) => FunctionalTypeView::LCD(s@),
            FunctionalType::IsolationIC(s) => FunctionalTypeView::IsolationIC(s@),
            FunctionalType::OpAmp(s) => FunctionalTypeView::OpAmp(s@),
            FunctionalType::Timer(s) => FunctionalTypeView::Timer(s@),
        }
    }
}

impl DeepView for FunctionalType {
    type V = FunctionalTypeView;

    open spec fn deep_view(&self) -> FunctionalTypeView {
        self.view()
    }
}

impl FunctionalType {
    /// A copy of this classification whose view equals this one's.
    pub fn duplicate(&self) -> (r: FunctionalType)
        ensures
            r@ == self@,
    {
        match self {
            FunctionalType::Resistor(s) => FunctionalType::Resistor(s.clone()),
            FunctionalType::Capacitor(s) => FunctionalType::Capacitor(s.clone()),
            FunctionalType::Inductor(s) => FunctionalType::Inductor(s.clone()),
            FunctionalType::Connector(s) => FunctionalType::Connector(s.clone()),
            FunctionalType::Fuse(s) => FunctionalType::Fuse(s.clone()),
            FunctionalType::Protection(s) => FunctionalType::Protection(s.clone()),
            FunctionalType::IntegratedCircuit(s) => FunctionalType::IntegratedCircuit(s.clone()),
            FunctionalType::ADC(s) => FunctionalType::ADC(s.clone()),
            FunctionalType::DAC(s) => FunctionalType::DAC(s.clone()),
            FunctionalType::FPGA(s) => FunctionalType::FPGA(s.clone()),
            FunctionalType::MCU(s) => FunctionalType::MCU(s.clone()),
            FunctionalType::LED(s) => FunctionalType::LED(s.clone()),
            FunctionalType::LCD(s) => FunctionalType::LCD(s.clone()),
            FunctionalType::IsolationIC(s) => FunctionalType::IsolationIC(s.clone()),
            FunctionalType::OpAmp(s) => FunctionalType::OpAmp(s.clone()),
            FunctionalType::Timer(s) => FunctionalType::Timer(s.clone()),
        }
    }
}

} // verus!
